//! The counts behind the faithfulness evaluation of generated content:
//! grounded claims, words supported by the evidence, and brand voice.
use vstd::prelude::*;
use vstd::utf8::encode_utf8;

use crate::evidence::{Claim, Evidence};
use crate::text::{
    chars_eq, chars_of, concat2, decimal, decimal_string, has_substring, lowercase_of, split_words,
    str_contains, string_of, to_lowercase, words,
};

verus! {

/// What the evaluator counts in generated content.
pub struct ContentTally {
    /// Claims that cite evidence.
    pub grounded_claims: usize,
    /// Claims that cite none.
    pub ungrounded_claims: usize,
    /// Words of the content longer than five bytes that occur among the
    /// evidence's words (both lower-cased).
    pub supported_words: usize,
    /// Words of the content.
    pub content_words: usize,
    /// No overclaiming wording, and brand rules were given.
    pub brand_voice_ok: bool,
    /// Remarks on what the counts show.
    pub notes: Vec<String>,
}

/// Claims that cite evidence.
pub open spec fn grounded_claim() -> spec_fn(Claim) -> bool {
    |c: Claim| c.evidence_ids@.len() > 0
}

/// `x` is a lower-cased word of one of the evidence contents.
pub open spec fn is_evidence_token(contents: Seq<Seq<char>>, x: Seq<char>) -> bool {
    exists|a: int, b: int|
        0 <= a < contents.len() && 0 <= b < words(contents[a]).len() && #[trigger] lowercase_of(
            words(contents[a])[b],
        ) == x
}

/// The lower-cased words of a text.
pub open spec fn lower_words(s: Seq<char>) -> Seq<Seq<char>> {
    words(s).map_values(|w: Seq<char>| lowercase_of(w))
}

/// Content words that count as supported: longer than five bytes in UTF-8
/// and found among the evidence's words.
pub open spec fn supported_word(contents: Seq<Seq<char>>) -> spec_fn(Seq<char>) -> bool {
    |w: Seq<char>| encode_utf8(w).len() > 5 && is_evidence_token(contents, w)
}

/// The contents of the evidence.
pub open spec fn contents_of(evidence: Seq<Evidence>) -> Seq<Seq<char>> {
    evidence.map_values(|e: Evidence| e.content@)
}

/// The brand voice holds for already lower-cased content: no promise of
/// certainty, and rules were given.
pub open spec fn voice_of(lower: Seq<char>, brand_rules: Seq<char>) -> bool {
    &&& !has_substring(lower, "guaranteed"@)
    &&& !has_substring(lower, "100% certain"@)
    &&& brand_rules.len() > 0
}

/// The brand voice holds: no promise of certainty, and rules were given.
pub open spec fn brand_voice(content: Seq<char>, brand_rules: Seq<char>) -> bool {
    voice_of(lowercase_of(content), brand_rules)
}

/// Whether the brand voice holds for already lower-cased content.
pub fn voice_holds(lower: &str, brand_rules: &str) -> (b: bool)
    ensures
        b == voice_of(lower@, brand_rules@),
{
    !str_contains(lower, "guaranteed") && !str_contains(lower, "100% certain") && chars_of(
        brand_rules,
    ).len() > 0
}

/// The note for claims without citations.
pub open spec fn ungrounded_note(n: nat) -> Seq<char> {
    decimal(n) + " claim(s) lack evidence citations"@
}

fn count_grounded(claims: &[Claim]) -> (n: usize)
    ensures
        n == claims@.filter(grounded_claim()).len(),
        n <= claims@.len(),
{
    let mut n: usize = 0;
    let mut i: usize = 0;
    proof {
        assert(claims@.take(0) =~= Seq::<Claim>::empty());
        reveal_with_fuel(Seq::filter, 1);
    }
    while i < claims.len()
        invariant
            i <= claims@.len(),
            n <= i,
            n == claims@.take(i as int).filter(grounded_claim()).len(),
        decreases claims@.len() - i,
    {
        proof {
            assert(claims@.take(i + 1).drop_last() =~= claims@.take(i as int));
            reveal_with_fuel(Seq::filter, 1);
        }
        if claims[i].is_grounded() {
            n += 1;
        }
        i += 1;
    }
    assert(claims@.take(claims@.len() as int) =~= claims@);
    n
}

/// The lower-cased words of `s`, each as a character vector.
fn lower_words_of(s: &str) -> (res: Vec<Vec<char>>)
    ensures
        res@.map_values(|w: Vec<char>| w@) == lower_words(s@),
{
    let cs = chars_of(s);
    let ws = split_words(&cs);
    let ghost wv = words(s@);
    let mut res: Vec<Vec<char>> = Vec::new();
    let mut j: usize = 0;
    while j < ws.len()
        invariant
            j <= ws@.len(),
            ws@.map_values(|w: Vec<char>| w@) == wv,
            wv == words(s@),
            res@.len() == j,
            forall|k: int| 0 <= k < j ==> #[trigger] res@[k]@ == lowercase_of(wv[k]),
        decreases ws@.len() - j,
    {
        let w = string_of(&ws[j]);
        assert(w@ == wv[j as int]);
        let lw = to_lowercase(w.as_str());
        res.push(chars_of(lw.as_str()));
        j += 1;
    }
    assert(res@.map_values(|w: Vec<char>| w@) =~= lower_words(s@));
    res
}

/// Whether `w` is one of `tokens`.
fn has_token(tokens: &Vec<Vec<char>>, w: &Vec<char>) -> (b: bool)
    ensures
        b == token_views(tokens@).contains(w@),
{
    let mut k: usize = 0;
    while k < tokens.len()
        invariant
            k <= tokens@.len(),
            forall|j: int| 0 <= j < k ==> #[trigger] tokens@[j]@ != w@,
        decreases tokens@.len() - k,
    {
        if chars_eq(&tokens[k], w) {
            assert(token_views(tokens@)[k as int] == w@);
            return true;
        }
        k += 1;
    }
    proof {
        if token_views(tokens@).contains(w@) {
            let k = choose|k: int| 0 <= k < token_views(tokens@).len() && token_views(tokens@)[k] == w@;
            assert(tokens@[k]@ != w@);
        }
    }
    false
}

/// The views of character vectors.
pub open spec fn token_views(tokens: Seq<Vec<char>>) -> Seq<Seq<char>> {
    tokens.map_values(|t: Vec<char>| t@)
}

/// `x` is a lower-cased word of one of the first `a` contents.
pub open spec fn token_before(contents: Seq<Seq<char>>, a: int, x: Seq<char>) -> bool {
    exists|i: int, j: int|
        0 <= i < a && 0 <= j < words(contents[i]).len() && #[trigger] lowercase_of(
            words(contents[i])[j],
        ) == x
}

/// `x` is one of the first `b` lower-cased words of `c`.
pub open spec fn word_before(c: Seq<char>, b: int, x: Seq<char>) -> bool {
    exists|j: int| 0 <= j < b && #[trigger] lowercase_of(words(c)[j]) == x
}

/// Words longer than five bytes in UTF-8 that are among `tokens`.
pub open spec fn long_known_word(tokens: Seq<Seq<char>>) -> spec_fn(Seq<char>) -> bool {
    |w: Seq<char>| encode_utf8(w).len() > 5 && tokens.contains(w)
}

/// How many of the (already lower-cased) `words` are longer than five bytes
/// and occur among the (already lower-cased) evidence `tokens`.
pub fn count_supported(words: &Vec<Vec<char>>, tokens: &Vec<Vec<char>>) -> (n: usize)
    ensures
        n == token_views(words@).filter(long_known_word(token_views(tokens@))).len(),
        n <= words@.len(),
{
    let ghost wv = token_views(words@);
    let mut n: usize = 0;
    let mut k: usize = 0;
    proof {
        assert(wv.take(0) =~= Seq::<Seq<char>>::empty());
        reveal_with_fuel(Seq::filter, 1);
    }
    while k < words.len()
        invariant
            k <= words@.len(),
            wv == token_views(words@),
            n <= k,
            n == wv.take(k as int).filter(long_known_word(token_views(tokens@))).len(),
        decreases words@.len() - k,
    {
        let w = &words[k];
        proof {
            assert(wv.take(k + 1).drop_last() =~= wv.take(k as int));
            assert(wv.take(k + 1).last() == w@);
            reveal_with_fuel(Seq::filter, 1);
        }
        let long = crate::text::utf8_longer_than(w, 5);
        let found = has_token(tokens, w);
        if long && found {
            n += 1;
        }
        k += 1;
    }
    assert(wv.take(words@.len() as int) =~= wv);
    n
}

/// Counts the claims, the supported words and the brand voice of `content`.
pub fn content_tally(
    content: &str,
    claims: &[Claim],
    evidence: &[Evidence],
    brand_rules: &str,
) -> (t: ContentTally)
    ensures
        t.grounded_claims == claims@.filter(grounded_claim()).len(),
        t.ungrounded_claims == claims@.len() - t.grounded_claims,
        t.content_words == words(content@).len(),
        t.supported_words == lower_words(content@).filter(
            supported_word(contents_of(evidence@)),
        ).len(),
        t.supported_words <= t.content_words,
        t.brand_voice_ok == brand_voice(content@, brand_rules@),
        t.notes@.map_values(|s: String| s@) == if t.ungrounded_claims > 0 {
            seq![ungrounded_note(t.ungrounded_claims as nat)]
        } else {
            Seq::empty()
        },
{
    let grounded = count_grounded(claims);
    let ungrounded = claims.len() - grounded;
    // The evidence's lower-cased words.
    let ghost contents = contents_of(evidence@);
    let mut tokens: Vec<Vec<char>> = Vec::new();
    let mut a: usize = 0;
    while a < evidence.len()
        invariant
            a <= evidence@.len(),
            contents == contents_of(evidence@),
            forall|x: Seq<char>| #[trigger]
                token_views(tokens@).contains(x) <==> token_before(contents, a as int, x),
        decreases evidence@.len() - a,
    {
        let ws = lower_words_of(evidence[a].content.as_str());
        let ghost c = contents[a as int];
        assert(c == evidence@[a as int].content@);
        let mut b: usize = 0;
        while b < ws.len()
            invariant
                a < evidence@.len(),
                b <= ws@.len(),
                contents == contents_of(evidence@),
                c == contents[a as int],
                ws@.map_values(|w: Vec<char>| w@) == lower_words(c),
                forall|x: Seq<char>| #[trigger]
                    token_views(tokens@).contains(x) <==> (token_before(contents, a as int, x)
                        || word_before(c, b as int, x)),
            decreases ws@.len() - b,
        {
            let ghost before = token_views(tokens@);
            let w = ws[b].clone();
            assert(w@ =~= ws@[b as int]@);
            assert(ws@.map_values(|w: Vec<char>| w@)[b as int] == ws@[b as int]@);
            assert(lower_words(c).len() == words(c).len());
            assert(lower_words(c)[b as int] == lowercase_of(words(c)[b as int]));
            assert(w@ == lowercase_of(words(c)[b as int]));
            tokens.push(w);
            proof {
                assert(token_views(tokens@) =~= before.push(w@));
                assert forall|x: Seq<char>| #[trigger]
                    token_views(tokens@).contains(x) <==> (token_before(contents, a as int, x)
                        || word_before(c, b + 1, x)) by {
                    if token_views(tokens@).contains(x) {
                        let k = choose|k: int| 0 <= k < token_views(tokens@).len() && token_views(tokens@)[k] == x;
                        if k < before.len() {
                            assert(before.contains(x));
                            if word_before(c, b as int, x) {
                                let j = choose|j: int| 0 <= j < b && #[trigger] lowercase_of(words(c)[j]) == x;
                                assert(lowercase_of(words(c)[j]) == x);
                            }
                        } else {
                            assert(lowercase_of(words(c)[b as int]) == x);
                        }
                    }
                    if word_before(c, b + 1, x) {
                        let j = choose|j: int| 0 <= j < b + 1 && #[trigger] lowercase_of(words(c)[j]) == x;
                        if j < b {
                            assert(word_before(c, b as int, x));
                            assert(before.contains(x));
                            let k = choose|k: int| 0 <= k < before.len() && before[k] == x;
                            assert(token_views(tokens@)[k] == x);
                        } else {
                            assert(token_views(tokens@)[before.len() as int] == x);
                        }
                    }
                    if token_before(contents, a as int, x) {
                        assert(before.contains(x));
                        let k = choose|k: int| 0 <= k < before.len() && before[k] == x;
                        assert(token_views(tokens@)[k] == x);
                    }
                }
            }
            b += 1;
        }
        proof {
            assert(lower_words(c).len() == words(c).len());
            assert forall|x: Seq<char>| #[trigger]
                token_views(tokens@).contains(x) <==> token_before(contents, a + 1, x) by {
                if token_before(contents, a + 1, x) {
                    let (i, j) = choose|i: int, j: int|
                        0 <= i < a + 1 && 0 <= j < words(contents[i]).len() && #[trigger] lowercase_of(
                            words(contents[i])[j],
                        ) == x;
                    if i == a {
                        assert(word_before(c, b as int, x));
                    } else {
                        assert(token_before(contents, a as int, x));
                    }
                }
                if word_before(c, b as int, x) {
                    let j = choose|j: int| 0 <= j < b && #[trigger] lowercase_of(words(c)[j]) == x;
                    assert(lowercase_of(words(contents[a as int])[j]) == x);
                }
                if token_before(contents, a as int, x) {
                    let (i, j) = choose|i: int, j: int|
                        0 <= i < a && 0 <= j < words(contents[i]).len() && #[trigger] lowercase_of(
                            words(contents[i])[j],
                        ) == x;
                    assert(0 <= i < a + 1 && 0 <= j < words(contents[i]).len() && lowercase_of(
                        words(contents[i])[j],
                    ) == x);
                }
            }
        }
        a += 1;
    }
    // The content's lower-cased words, checked against the evidence.
    let cw = lower_words_of(content);
    let ghost cwv = lower_words(content@);
    let supported = count_supported(&cw, &tokens);
    proof {
        assert(token_views(cw@) == cwv);
        assert forall|x: Seq<char>| #[trigger] long_known_word(token_views(tokens@))(x)
            == supported_word(contents)(x) by {
            assert(token_before(contents, contents.len() as int, x) == is_evidence_token(contents, x));
        }
        assert(long_known_word(token_views(tokens@)) =~= supported_word(contents));
        assert(cwv.len() == cw@.len());
    }
    assert(cwv.len() == words(content@).len());
    let content_words = cw.len();
    // Brand voice.
    let lower = to_lowercase(content);
    let brand_voice_ok = voice_holds(lower.as_str(), brand_rules);
    let mut notes: Vec<String> = Vec::new();
    if ungrounded > 0 {
        let n = decimal_string(ungrounded as u64);
        notes.push(concat2(n.as_str(), " claim(s) lack evidence citations"));
    }
    assert(notes@.map_values(|s: String| s@) =~= if ungrounded > 0 {
        seq![ungrounded_note(ungrounded as nat)]
    } else {
        Seq::empty()
    });
    ContentTally {
        grounded_claims: grounded,
        ungrounded_claims: ungrounded,
        supported_words: supported,
        content_words,
        brand_voice_ok,
        notes,
    }
}

/// What the evaluator counts in a transcript assessment.
pub struct TranscriptTally {
    /// One per cited line number.
    pub grounded_claims: usize,
    /// One when nothing is cited, otherwise none.
    pub ungrounded_claims: usize,
    /// At least one line is cited.
    pub has_citations: bool,
    /// Remarks on the assessment.
    pub notes: Vec<String>,
}

/// The note every transcript assessment carries.
pub open spec fn transcript_note() -> Seq<char> {
    "Transcript assessment requires line-level evidence"@
}

/// Counts the citations of a transcript assessment.
pub fn transcript_tally(cited_lines: &[u32]) -> (t: TranscriptTally)
    ensures
        t.grounded_claims == cited_lines@.len(),
        t.has_citations == (cited_lines@.len() > 0),
        t.ungrounded_claims == if t.has_citations {
            0usize
        } else {
            1usize
        },
        t.notes@.map_values(|s: String| s@) == seq![transcript_note()],
{
    let has_citations = cited_lines.len() > 0;
    let mut notes: Vec<String> = Vec::new();
    notes.push(String::from_str("Transcript assessment requires line-level evidence"));
    assert(notes@.map_values(|s: String| s@) =~= seq![transcript_note()]);
    TranscriptTally {
        grounded_claims: cited_lines.len(),
        ungrounded_claims: if has_citations {
            0
        } else {
            1
        },
        has_citations,
        notes,
    }
}

} // verus!
