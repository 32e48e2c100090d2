//! A verified UTF-8 validator.
//!
//! The facade must know, before marshalling a path and after copying an
//! engine reply, whether a byte string is valid UTF-8 — and, when it is not,
//! how long its longest valid prefix is, since that length travels in the
//! decoding error.  [`validate_utf8`] answers both questions and is verified
//! against the encoding model of `vstd::utf8`: scalar widths, continuation
//! bytes, overlong encodings and the surrogate range.

use vstd::prelude::*;
use vstd::utf8::*;

verus! {

/// `p` is the length of the longest prefix of the string that is valid UTF-8.
pub open spec fn is_longest_valid_prefix(bytes: Seq<u8>, p: int) -> bool {
    &&& 0 <= p <= bytes.len()
    &&& valid_utf8(bytes.take(p))
    &&& forall|m: int| p < m <= bytes.len() ==> !valid_utf8(bytes.take(m))
}

/// Examines the suffix starting at `i`: the width of the well-formed scalar
/// encoding it begins with, or `None` if it begins with none.
fn check_first_scalar(bytes: &Vec<u8>, i: usize) -> (r: Option<usize>)
    requires
        i < bytes@.len(),
    ensures
        ({
            let suffix = bytes@.subrange(i as int, bytes@.len() as int);
            match r {
                Some(k) => valid_first_scalar(suffix) && k == length_of_first_scalar(suffix) && i
                    + k <= bytes@.len(),
                None => !valid_first_scalar(suffix),
            }
        }),
{
    let n = bytes.len();
    let ghost suffix = bytes@.subrange(i as int, bytes@.len() as int);
    let b0 = bytes[i];
    proof {
        assert(suffix[0] == bytes@[i as int]);
        assert(suffix.len() == n - i);
    }
    if b0 <= 0x7f {
        let cp = (b0 & 0x7f) as u32;
        if 0xd800 <= cp && cp <= 0xdfff {
            return None;
        }
        Some(1)
    } else if 0xc0 <= b0 && b0 <= 0xdf {
        if n - i < 2 {
            return None;
        }
        let b1 = bytes[i + 1];
        proof {
            assert(suffix[1] == bytes@[i + 1]);
        }
        if !(0x80 <= b1 && b1 <= 0xbf) {
            return None;
        }
        let cp = (((b0 & 0x1f) as u32) << 6u32) | ((b1 & 0x3f) as u32);
        if cp < 0x80 {
            return None;
        }
        if 0xd800 <= cp && cp <= 0xdfff {
            return None;
        }
        Some(2)
    } else if 0xe0 <= b0 && b0 <= 0xef {
        if n - i < 3 {
            return None;
        }
        let b1 = bytes[i + 1];
        let b2 = bytes[i + 2];
        proof {
            assert(suffix[1] == bytes@[i + 1]);
            assert(suffix[2] == bytes@[i + 2]);
        }
        if !(0x80 <= b1 && b1 <= 0xbf) || !(0x80 <= b2 && b2 <= 0xbf) {
            return None;
        }
        let cp = (((b0 & 0x0f) as u32) << 12u32) | (((b1 & 0x3f) as u32) << 6u32) | ((b2
            & 0x3f) as u32);
        if cp < 0x800 {
            return None;
        }
        if 0xd800 <= cp && cp <= 0xdfff {
            return None;
        }
        Some(3)
    } else if 0xf0 <= b0 && b0 <= 0xf7 {
        if n - i < 4 {
            return None;
        }
        let b1 = bytes[i + 1];
        let b2 = bytes[i + 2];
        let b3 = bytes[i + 3];
        proof {
            assert(suffix[1] == bytes@[i + 1]);
            assert(suffix[2] == bytes@[i + 2]);
            assert(suffix[3] == bytes@[i + 3]);
        }
        if !(0x80 <= b1 && b1 <= 0xbf) || !(0x80 <= b2 && b2 <= 0xbf) || !(0x80 <= b3 && b3
            <= 0xbf) {
            return None;
        }
        let cp = (((b0 & 0x07) as u32) << 18u32) | (((b1 & 0x3f) as u32) << 12u32) | (((b2
            & 0x3f) as u32) << 6u32) | ((b3 & 0x3f) as u32);
        if !(0x10000 <= cp && cp <= 0x10ffff) {
            return None;
        }
        if 0xd800 <= cp && cp <= 0xdfff {
            return None;
        }
        Some(4)
    } else {
        None
    }
}

/// A well-formed scalar encoding at the head of a string is one at the head
/// of any extension of that string.
proof fn lemma_valid_first_scalar_extend(s: Seq<u8>, t: Seq<u8>)
    requires
        valid_first_scalar(s),
        s.len() <= t.len(),
        s == t.subrange(0, s.len() as int),
    ensures
        valid_first_scalar(t),
{
    assert(s[0] == t[0]);
    if is_leading_byte_width_1(s[0]) {
    } else if is_leading_byte_width_2(s[0]) {
        assert(s[1] == t[1]);
    } else if is_leading_byte_width_3(s[0]) {
        assert(s[1] == t[1]);
        assert(s[2] == t[2]);
    } else {
        assert(s[1] == t[1]);
        assert(s[2] == t[2]);
        assert(s[3] == t[3]);
    }
}

/// UTF-8 is self-synchronizing: a position whose prefix is itself valid UTF-8
/// is a character boundary of any valid string it is a prefix of.
proof fn lemma_valid_prefix_is_boundary(t: Seq<u8>, i: int)
    requires
        valid_utf8(t),
        0 <= i <= t.len(),
        valid_utf8(t.subrange(0, i)),
    ensures
        is_char_boundary(t, i),
    decreases t.len(),
{
    if i > 0 {
        let p = t.subrange(0, i);
        assert(p[0] == t[0]);
        let k = length_of_first_scalar(t);
        assert(length_of_first_scalar(p) == k);
        assert(i >= k);
        let pt = pop_first_scalar(t);
        let pp = pop_first_scalar(p);
        assert(pp =~= pt.subrange(0, i - k));
        assert(pt.len() == t.len() - k);
        lemma_valid_prefix_is_boundary(pt, i - k);
    }
}

/// Once the suffix at `i` begins with no well-formed scalar encoding, no
/// prefix longer than `i` is valid UTF-8.
proof fn lemma_no_longer_prefix(bytes: Seq<u8>, i: int)
    requires
        0 <= i < bytes.len(),
        valid_utf8(bytes.subrange(0, i)),
        !valid_first_scalar(bytes.subrange(i, bytes.len() as int)),
    ensures
        forall|m: int| i < m <= bytes.len() ==> !valid_utf8(bytes.take(m)),
{
    assert forall|m: int| i < m <= bytes.len() implies !valid_utf8(bytes.take(m)) by {
        if valid_utf8(bytes.take(m)) {
            let t = bytes.take(m);
            assert(t.subrange(0, i) =~= bytes.subrange(0, i));
            lemma_valid_prefix_is_boundary(t, i);
            valid_utf8_split(t, i);
            let s = t.subrange(i, t.len() as int);
            assert(s.len() > 0);
            assert(valid_first_scalar(s));
            let whole = bytes.subrange(i, bytes.len() as int);
            assert(s =~= whole.subrange(0, s.len() as int));
            lemma_valid_first_scalar_extend(s, whole);
        }
    }
}

/// Validates a byte string: `Ok` exactly when it is valid UTF-8, and on
/// rejection the length of the longest valid prefix.
pub fn validate_utf8(bytes: &Vec<u8>) -> (r: Result<(), usize>)
    ensures
        r is Ok <==> valid_utf8(bytes@),
        (r matches Err(p) ==> is_longest_valid_prefix(bytes@, p as int)),
{
    let n = bytes.len();
    let mut i: usize = 0;
    while i < n
        invariant
            i <= n,
            n == bytes@.len(),
            partial_valid_utf8(bytes@, i as int),
        decreases n - i,
    {
        match check_first_scalar(bytes, i) {
            Some(k) => {
                proof {
                    partial_valid_utf8_extend(bytes@, i as int);
                }
                i += k;
            },
            None => {
                proof {
                    lemma_no_longer_prefix(bytes@, i as int);
                    assert(bytes@.take(i as int) =~= bytes@.subrange(0, i as int));
                    assert(bytes@.take(bytes@.len() as int) =~= bytes@);
                }
                return Err(i);
            },
        }
    }
    proof {
        assert(bytes@.subrange(0, n as int) =~= bytes@);
    }
    Ok(())
}

} // verus!
