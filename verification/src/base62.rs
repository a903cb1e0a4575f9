//! Base-62 catalog identifiers: digits `0-9`, then `a-z`, then `A-Z`, most
//! significant digit first, decoded into a 128-bit number.

use vstd::prelude::*;
use crate::text::chars_of;

verus! {

/// An opaque catalog identifier: the number that its base-62 text encodes.
#[derive(Clone, Copy, PartialEq, Eq, Structural, Debug, Hash)]
pub struct CatalogId {
    pub value: u128,
}

/// An ASCII letter or digit.
pub open spec fn is_alnum(c: char) -> bool {
    let n = c as u32;
    (48 <= n <= 57) || (97 <= n <= 122) || (65 <= n <= 90)
}

/// The value of a base-62 digit: `0-9` are 0 to 9, `a-z` are 10 to 35,
/// `A-Z` are 36 to 61.
pub open spec fn digit_of(c: char) -> nat {
    let n = c as u32;
    if 48 <= n <= 57 {
        (n - 48) as nat
    } else if 97 <= n <= 122 {
        (n - 97 + 10) as nat
    } else {
        (n - 65 + 36) as nat
    }
}

/// Every character is an ASCII letter or digit.
pub open spec fn all_alnum(s: Seq<char>) -> bool {
    forall|i: int| 0 <= i < s.len() ==> is_alnum(#[trigger] s[i])
}

/// The number that a base-62 text stands for, most significant digit first.
pub open spec fn base62_value(s: Seq<char>) -> nat
    decreases s.len(),
{
    if s.len() == 0 {
        0
    } else {
        base62_value(s.drop_last()) * 62 + digit_of(s.last())
    }
}

/// The identifier that a text encodes: defined when every character is a
/// base-62 digit and the number fits in 128 bits.
pub open spec fn base62_decoded(s: Seq<char>) -> Option<u128> {
    if all_alnum(s) && base62_value(s) <= u128::MAX {
        Some(base62_value(s) as u128)
    } else {
        None
    }
}

/// A longer text never stands for a smaller number than its beginning.
pub proof fn lemma_value_grows(s: Seq<char>, k: int)
    requires
        0 <= k <= s.len(),
    ensures
        base62_value(s.take(k)) <= base62_value(s),
    decreases s.len(),
{
    if k == s.len() {
        assert(s.take(k) == s);
    } else {
        lemma_value_grows(s.drop_last(), k);
        assert(s.drop_last().take(k) == s.take(k));
    }
}

/// Tests for an ASCII letter or digit.
pub fn alnum(c: char) -> (r: bool)
    ensures
        r == is_alnum(c),
{
    let n: u32 = c as u32;
    (48 <= n && n <= 57) || (97 <= n && n <= 122) || (65 <= n && n <= 90)
}

fn digit(c: char) -> (d: u128)
    requires
        is_alnum(c),
    ensures
        d == digit_of(c),
        d < 62,
{
    let n: u32 = c as u32;
    if 48 <= n && n <= 57 {
        (n - 48) as u128
    } else if 97 <= n && n <= 122 {
        (n - 97 + 10) as u128
    } else {
        (n - 65 + 36) as u128
    }
}

/// Decodes the base-62 text that starts at `from` and runs to the end of
/// `chars`.
pub fn decode_chars(chars: &Vec<char>, from: usize) -> (r: Option<u128>)
    requires
        from <= chars.len(),
    ensures
        r == base62_decoded(chars@.skip(from as int)),
{
    let ghost text = chars@.skip(from as int);
    let mut acc: u128 = 0;
    let mut i: usize = from;
    while i < chars.len()
        invariant
            from <= i <= chars.len(),
            text == chars@.skip(from as int),
            all_alnum(text.take(i - from)),
            acc == base62_value(text.take(i - from)),
        decreases chars.len() - i,
    {
        let c = chars[i];
        let ghost next = text.take(i - from + 1);
        proof {
            assert(text[i - from] == c);
            assert(next.drop_last() == text.take(i - from));
            assert(next.last() == c);
        }
        if !alnum(c) {
            assert(!is_alnum(text[i - from]));
            return None;
        }
        let d = digit(c);
        let scaled = match acc.checked_mul(62) {
            Some(v) => v,
            None => {
                proof {
                    lemma_value_grows(text, i - from + 1);
                }
                return None;
            },
        };
        acc = match scaled.checked_add(d) {
            Some(v) => v,
            None => {
                proof {
                    lemma_value_grows(text, i - from + 1);
                }
                return None;
            },
        };
        proof {
            assert forall|j: int| 0 <= j < next.len() implies is_alnum(#[trigger] next[j]) by {
                if j < i - from {
                    assert(next[j] == text.take(i - from)[j]);
                }
            }
        }
        i += 1;
    }
    assert(text.take(chars.len() - from) == text);
    Some(acc)
}

/// Decodes a base-62 identifier. `None` when a character is not a base-62
/// digit or the number does not fit in 128 bits.
pub fn decode_base62(text: &str) -> (r: Option<CatalogId>)
    ensures
        match base62_decoded(text@) {
            Some(v) => r == Some(CatalogId { value: v }),
            None => r is None,
        },
{
    let chars = chars_of(text);
    assert(chars@.skip(0) == chars@);
    match decode_chars(&chars, 0) {
        Some(v) => Some(CatalogId { value: v }),
        None => None,
    }
}

} // verus!
