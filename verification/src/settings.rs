//! Settings read from the environment by the service.
use vstd::prelude::*;
use vstd::utf8::encode_utf8;

verus! {

/// ASCII lower case of a byte; other bytes stay as they are.
pub open spec fn ascii_lower(b: u8) -> u8 {
    if 65 <= b <= 90 {
        (b + 32) as u8
    } else {
        b
    }
}

/// Two byte strings are equal when ASCII letters are compared without case.
pub open spec fn bytes_eq_ignore_ascii_case(a: Seq<u8>, b: Seq<u8>) -> bool {
    &&& a.len() == b.len()
    &&& forall|i: int| 0 <= i < a.len() ==> ascii_lower(#[trigger] a[i]) == ascii_lower(b[i])
}

/// The ASCII lower case of a byte.
fn lower_byte(b: u8) -> (r: u8)
    ensures
        r == ascii_lower(b),
{
    if 65 <= b && b <= 90 {
        b + 32
    } else {
        b
    }
}

/// Whether two strings are equal when ASCII letters are compared without
/// case (what `str::eq_ignore_ascii_case` tests): equal lengths in bytes,
/// and bytes equal once ASCII letters are lower-cased.
pub fn eq_ignore_ascii_case(a: &str, b: &str) -> (res: bool)
    ensures
        res == bytes_eq_ignore_ascii_case(encode_utf8(a@), encode_utf8(b@)),
{
    let x = a.as_bytes();
    let y = b.as_bytes();
    if x.len() != y.len() {
        return false;
    }
    let mut i: usize = 0;
    while i < x.len()
        invariant
            x@ == encode_utf8(a@),
            y@ == encode_utf8(b@),
            x@.len() == y@.len(),
            i <= x@.len(),
            forall|k: int| 0 <= k < i ==> ascii_lower(#[trigger] x@[k]) == ascii_lower(y@[k]),
        decreases x@.len() - i,
    {
        if lower_byte(x[i]) != lower_byte(y[i]) {
            return false;
        }
        i += 1;
    }
    true
}

/// Whether finished content waits for approval, given the setting as read
/// from the environment: yes when it is unset, `1`, or `true` in any case.
pub open spec fn approval_required_by(setting: Option<Seq<char>>) -> bool {
    match setting {
        None => true,
        Some(v) => v == "1"@ || bytes_eq_ignore_ascii_case(encode_utf8(v), encode_utf8("true"@)),
    }
}

/// Whether finished content waits for approval, given the setting as read
/// from the environment.
pub fn approval_required(setting: Option<&str>) -> (b: bool)
    ensures
        b == approval_required_by(
            match setting {
                Some(v) => Some(v@),
                None => None,
            },
        ),
{
    match setting {
        None => true,
        Some(v) => crate::text::str_eq(v, "1") || eq_ignore_ascii_case(v, "true"),
    }
}

} // verus!
