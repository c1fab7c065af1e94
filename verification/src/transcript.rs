//! Interview transcripts: numbered lines, each split into speaker and text.
use vstd::prelude::*;

use crate::text::{
    chars_of, lf_sep, lines, pieces, string_of_range, strip_cr, trim, trim_range,
};

verus! {

/// One non-blank line of a transcript.
pub struct TranscriptLine {
    /// 1-based number of the line in the transcript, blank lines counted.
    pub line: u32,
    pub speaker: String,
    pub text: String,
}

/// A transcript line as a mathematical value.
pub struct LineView {
    pub line: u32,
    pub speaker: Seq<char>,
    pub text: Seq<char>,
}

impl View for TranscriptLine {
    type V = LineView;

    open spec fn view(&self) -> LineView {
        LineView { line: self.line, speaker: self.speaker@, text: self.text@ }
    }
}

impl Clone for TranscriptLine {
    fn clone(&self) -> (res: Self)
        ensures
            res == *self,
    {
        TranscriptLine { line: self.line, speaker: self.speaker.clone(), text: self.text.clone() }
    }
}

/// `raw` holds a `:` at `i` and none before it.
pub open spec fn is_first_colon(raw: Seq<char>, i: int) -> bool {
    &&& 0 <= i < raw.len()
    &&& raw[i] == ':'
    &&& forall|j: int| 0 <= j < i ==> raw[j] != ':'
}

/// Speaker and text of a raw line: around its first `:`, both trimmed;
/// without a `:` the speaker is `unknown` and the text the trimmed line.
pub open spec fn speaker_and_text(raw: Seq<char>) -> (Seq<char>, Seq<char>) {
    if exists|i: int| is_first_colon(raw, i) {
        let i = choose|i: int| is_first_colon(raw, i);
        (trim(raw.take(i)), trim(raw.skip(i + 1)))
    } else {
        ("unknown"@, trim(raw))
    }
}

/// The entry for line number `n` (1-based) holding `raw`: none when the
/// line is blank.
pub open spec fn parse_entry(n: int, raw: Seq<char>) -> Option<LineView> {
    if trim(raw).len() == 0 {
        None
    } else {
        let (speaker, text) = speaker_and_text(raw);
        Some(LineView { line: n as u32, speaker, text })
    }
}

/// The entries of a sequence of lines, numbered from 1.
pub open spec fn entries(ls: Seq<Seq<char>>) -> Seq<LineView> {
    ls.map(|i: int, l: Seq<char>| (i + 1, l)).filter_map(
        |p: (int, Seq<char>)| parse_entry(p.0, p.1),
    )
}

/// What parsing `content` gives: one entry for each non-blank line of
/// `str::lines`, in order.
pub open spec fn parsed_transcript(content: Seq<char>) -> Seq<LineView> {
    entries(lines(content))
}

pub(crate) proof fn lemma_entries_push(ls: Seq<Seq<char>>, x: Seq<char>)
    ensures
        entries(ls.push(x)) == match parse_entry(ls.len() as int + 1, x) {
            Some(e) => entries(ls).push(e),
            None => entries(ls),
        },
{
    let g = |i: int, l: Seq<char>| (i + 1, l);
    let f = |p: (int, Seq<char>)| parse_entry(p.0, p.1);
    let m = ls.push(x).map(g);
    assert(m.drop_last() =~= ls.map(g));
    assert(m.last() == (ls.len() as int + 1, x));
    reveal_with_fuel(Seq::filter_map, 1);
    match parse_entry(ls.len() as int + 1, x) {
        Some(e) => {
            assert(entries(ls.push(x)) =~= entries(ls).push(e));
        },
        None => {},
    }
}

/// The position of the first `:` in `chars[lo..hi]`, or `hi` when there is none.
fn find_colon(chars: &Vec<char>, lo: usize, hi: usize) -> (k: usize)
    requires
        lo <= hi <= chars@.len(),
    ensures
        lo <= k <= hi,
        k < hi ==> is_first_colon(chars@.subrange(lo as int, hi as int), k - lo),
        k == hi ==> forall|i: int| !is_first_colon(chars@.subrange(lo as int, hi as int), i),
{
    let ghost raw = chars@.subrange(lo as int, hi as int);
    let mut k = lo;
    while k < hi && chars[k] != ':'
        invariant
            lo <= k <= hi <= chars@.len(),
            raw == chars@.subrange(lo as int, hi as int),
            forall|j: int| 0 <= j < k - lo ==> raw[j] != ':',
        decreases hi - k,
    {
        k += 1;
    }
    proof {
        if k == hi {
            assert forall|i: int| !is_first_colon(raw, i) by {
                if 0 <= i < raw.len() {
                    assert(raw[i] != ':');
                }
            }
        }
    }
    k
}

pub(crate) proof fn lemma_first_colon_unique(raw: Seq<char>, i: int)
    requires
        is_first_colon(raw, i),
    ensures
        (choose|j: int| is_first_colon(raw, j)) == i,
{
    let j = choose|j: int| is_first_colon(raw, j);
    assert(is_first_colon(raw, j));
    if j < i {
        assert(raw[j] != ':');
    } else if i < j {
        assert(raw[i] != ':');
    }
}

/// Parses the line `chars[lo..hi]` as line number `n`; with `ended` the
/// line was cut at a `\n`, and a `\r` that ends it belongs to that ending.
fn parse_line(chars: &Vec<char>, lo: usize, hi: usize, n: usize, ended: bool) -> (res: Option<
    TranscriptLine,
>)
    requires
        lo <= hi <= chars@.len(),
    ensures
        ({
            let full = chars@.subrange(lo as int, hi as int);
            let raw = if ended {
                strip_cr(full)
            } else {
                full
            };
            match parse_entry(n as int, raw) {
                Some(e) => res matches Some(t) && t@ == e,
                None => res is None,
            }
        }),
{
    let ghost full = chars@.subrange(lo as int, hi as int);
    let end = if ended && hi > lo && chars[hi - 1] == '\r' {
        hi - 1
    } else {
        hi
    };
    let ghost raw = chars@.subrange(lo as int, end as int);
    assert(raw =~= if ended {
        strip_cr(full)
    } else {
        full
    });
    let (a, b) = trim_range(chars, lo, end);
    if a == b {
        return None;
    }
    let k = find_colon(chars, lo, end);
    #[verifier::truncate]
    let number = n as u32;
    if k < end {
        proof {
            lemma_first_colon_unique(raw, k - lo);
        }
        let (sa, sb) = trim_range(chars, lo, k);
        let (ta, tb) = trim_range(chars, k + 1, end);
        assert(raw.take(k - lo) =~= chars@.subrange(lo as int, k as int));
        assert(raw.skip(k - lo + 1) =~= chars@.subrange(k + 1, end as int));
        let speaker = string_of_range(chars, sa, sb);
        let text = string_of_range(chars, ta, tb);
        Some(TranscriptLine { line: number, speaker, text })
    } else {
        let speaker = String::from_str("unknown");
        let text = string_of_range(chars, a, b);
        Some(TranscriptLine { line: number, speaker, text })
    }
}

/// Splits a transcript into its non-blank lines, numbering every line of
/// the input from 1 and splitting each at its first `:` into speaker and
/// text.
pub fn parse_transcript(content: &str) -> (res: Vec<TranscriptLine>)
    ensures
        res@.map_values(|t: TranscriptLine| t@) == parsed_transcript(content@),
{
    let cs = chars_of(content);
    let len = cs.len();
    let mut out: Vec<TranscriptLine> = Vec::new();
    let mut start: usize = 0;
    let mut idx: usize = 0;
    let mut i: usize = 0;
    proof {
        assert(cs@.take(0) =~= Seq::<char>::empty());
        assert(cs@.subrange(0, 0) =~= Seq::<char>::empty());
    }
    while i < len
        invariant
            len == cs@.len(),
            start <= i <= len,
            pieces(cs@.take(i as int), lf_sep()).len() >= 1,
            cs@.subrange(start as int, i as int) == pieces(cs@.take(i as int), lf_sep()).last(),
            idx == pieces(cs@.take(i as int), lf_sep()).len() - 1,
            idx <= start,
            out@.map_values(|t: TranscriptLine| t@) == entries(
                pieces(cs@.take(i as int), lf_sep()).drop_last().map_values(
                    |l: Seq<char>| strip_cr(l),
                ),
            ),
        decreases len - i,
    {
        let ghost pre = cs@.take(i as int);
        let ghost p = pieces(pre, lf_sep());
        assert(cs@.take(i + 1).drop_last() =~= pre);
        assert(cs@.take(i + 1).last() == cs@[i as int]);
        if cs[i] == '\n' {
            let ghost done = p.drop_last().map_values(|l: Seq<char>| strip_cr(l));
            let ghost before = out@;
            proof {
                lemma_entries_push(done, strip_cr(p.last()));
                assert(p.push(Seq::empty()).drop_last() =~= p);
                assert(p.map_values(|l: Seq<char>| strip_cr(l)) =~= done.push(strip_cr(p.last())));
            }
            let parsed = parse_line(&cs, start, i, idx + 1, true);
            match parsed {
                Some(t) => {
                    out.push(t);
                    proof {
                        assert(out@.map_values(|t: TranscriptLine| t@) =~= before.map_values(
                            |t: TranscriptLine| t@,
                        ).push(t@));
                    }
                },
                None => {},
            }
            idx += 1;
            start = i + 1;
            proof {
                assert(cs@.subrange(start as int, i + 1) =~= Seq::<char>::empty());
            }
        } else {
            proof {
                let np = p.update(p.len() - 1, p.last().push(cs@[i as int]));
                assert(np.drop_last() =~= p.drop_last());
                assert(cs@.subrange(start as int, i + 1) =~= p.last().push(cs@[i as int]));
            }
        }
        i += 1;
    }
    assert(cs@.take(len as int) =~= cs@);
    let ghost p = pieces(cs@, lf_sep());
    let ghost done = p.drop_last().map_values(|l: Seq<char>| strip_cr(l));
    if start < len {
        let ghost before = out@;
        proof {
            lemma_entries_push(done, p.last());
        }
        let parsed = parse_line(&cs, start, len, idx + 1, false);
        match parsed {
            Some(t) => {
                out.push(t);
                proof {
                    assert(out@.map_values(|t: TranscriptLine| t@) =~= before.map_values(
                        |t: TranscriptLine| t@,
                    ).push(t@));
                }
            },
            None => {},
        }
    }
    out
}

} // verus!
