//! Interface-descriptor validation.
//!
//! A class is named by an interface descriptor: a non-empty UTF-8 string
//! that is handed to the native layer null-terminated, so it may not
//! contain an interior zero byte. The native layer rejects anything else,
//! and a definition attempt with a malformed descriptor must fail up
//! front, before any native state is touched.
//!
//! UTF-8 well-formedness is stated byte by byte over the whole sequence
//! ([`is_utf8_from`]) and decided by [`check_utf8`], which is proved to
//! agree with that statement exactly.

use vstd::prelude::*;

verus! {

/// Whether `b` is a UTF-8 continuation byte (`10xxxxxx`).
pub open spec fn is_cont_byte(b: u8) -> bool {
    0x80 <= b && b <= 0xBF
}

/// Whether the bytes of `s` from position `i` onward are well-formed
/// UTF-8: a sequence of encoded scalar values, each over the shortest
/// form, none in the surrogate range, none above the last scalar value.
pub open spec fn is_utf8_from(s: Seq<u8>, i: int) -> bool
    decreases s.len() - i,
{
    if i < 0 || i >= s.len() {
        true
    } else {
        let b0 = s[i];
        if b0 <= 0x7F {
            is_utf8_from(s, i + 1)
        } else if 0xC2 <= b0 && b0 <= 0xDF {
            &&& i + 2 <= s.len()
            &&& is_cont_byte(s[i + 1])
            &&& is_utf8_from(s, i + 2)
        } else if b0 == 0xE0 {
            &&& i + 3 <= s.len()
            &&& 0xA0 <= s[i + 1] && s[i + 1] <= 0xBF
            &&& is_cont_byte(s[i + 2])
            &&& is_utf8_from(s, i + 3)
        } else if (0xE1 <= b0 && b0 <= 0xEC) || b0 == 0xEE || b0 == 0xEF {
            &&& i + 3 <= s.len()
            &&& is_cont_byte(s[i + 1])
            &&& is_cont_byte(s[i + 2])
            &&& is_utf8_from(s, i + 3)
        } else if b0 == 0xED {
            &&& i + 3 <= s.len()
            &&& 0x80 <= s[i + 1] && s[i + 1] <= 0x9F
            &&& is_cont_byte(s[i + 2])
            &&& is_utf8_from(s, i + 3)
        } else if b0 == 0xF0 {
            &&& i + 4 <= s.len()
            &&& 0x90 <= s[i + 1] && s[i + 1] <= 0xBF
            &&& is_cont_byte(s[i + 2])
            &&& is_cont_byte(s[i + 3])
            &&& is_utf8_from(s, i + 4)
        } else if 0xF1 <= b0 && b0 <= 0xF3 {
            &&& i + 4 <= s.len()
            &&& is_cont_byte(s[i + 1])
            &&& is_cont_byte(s[i + 2])
            &&& is_cont_byte(s[i + 3])
            &&& is_utf8_from(s, i + 4)
        } else if b0 == 0xF4 {
            &&& i + 4 <= s.len()
            &&& 0x80 <= s[i + 1] && s[i + 1] <= 0x8F
            &&& is_cont_byte(s[i + 2])
            &&& is_cont_byte(s[i + 3])
            &&& is_utf8_from(s, i + 4)
        } else {
            false
        }
    }
}

/// Whether the whole byte sequence `s` is well-formed UTF-8.
pub open spec fn is_utf8(s: Seq<u8>) -> bool {
    is_utf8_from(s, 0)
}

/// Whether `s` names a class acceptably: non-empty, free of interior
/// zero bytes (it travels null-terminated), and well-formed UTF-8.
pub open spec fn is_valid_descriptor(s: Seq<u8>) -> bool {
    &&& s.len() > 0
    &&& forall|j: int| 0 <= j < s.len() ==> s[j] != 0
    &&& is_utf8(s)
}

/// Decides UTF-8 well-formedness of `bytes`.
pub fn check_utf8(bytes: &Vec<u8>) -> (r: bool)
    ensures
        r == is_utf8(bytes@),
{
    let n = bytes.len();
    let mut i: usize = 0;
    while i < n
        invariant
            i <= n,
            n == bytes@.len(),
            is_utf8(bytes@) == is_utf8_from(bytes@, i as int),
        decreases n - i,
    {
        let b0 = bytes[i];
        if b0 <= 0x7F {
            i = i + 1;
        } else if 0xC2 <= b0 && b0 <= 0xDF {
            if !(n - i >= 2 && is_cont(bytes[i + 1])) {
                return false;
            }
            i = i + 2;
        } else if b0 == 0xE0 {
            if !(n - i >= 3 && 0xA0 <= bytes[i + 1] && bytes[i + 1] <= 0xBF && is_cont(
                bytes[i + 2],
            )) {
                return false;
            }
            i = i + 3;
        } else if (0xE1 <= b0 && b0 <= 0xEC) || b0 == 0xEE || b0 == 0xEF {
            if !(n - i >= 3 && is_cont(bytes[i + 1]) && is_cont(bytes[i + 2])) {
                return false;
            }
            i = i + 3;
        } else if b0 == 0xED {
            if !(n - i >= 3 && 0x80 <= bytes[i + 1] && bytes[i + 1] <= 0x9F && is_cont(
                bytes[i + 2],
            )) {
                return false;
            }
            i = i + 3;
        } else if b0 == 0xF0 {
            if !(n - i >= 4 && 0x90 <= bytes[i + 1] && bytes[i + 1] <= 0xBF && is_cont(
                bytes[i + 2],
            ) && is_cont(bytes[i + 3])) {
                return false;
            }
            i = i + 4;
        } else if 0xF1 <= b0 && b0 <= 0xF3 {
            if !(n - i >= 4 && is_cont(bytes[i + 1]) && is_cont(bytes[i + 2]) && is_cont(
                bytes[i + 3],
            )) {
                return false;
            }
            i = i + 4;
        } else if b0 == 0xF4 {
            if !(n - i >= 4 && 0x80 <= bytes[i + 1] && bytes[i + 1] <= 0x8F && is_cont(
                bytes[i + 2],
            ) && is_cont(bytes[i + 3])) {
                return false;
            }
            i = i + 4;
        } else {
            return false;
        }
    }
    true
}

/// Decides [`is_cont_byte`].
fn is_cont(b: u8) -> (r: bool)
    ensures
        r == is_cont_byte(b),
{
    0x80 <= b && b <= 0xBF
}

/// Decides [`is_valid_descriptor`]: whether `bytes` may name a class.
pub fn check_descriptor(bytes: &Vec<u8>) -> (r: bool)
    ensures
        r == is_valid_descriptor(bytes@),
{
    if bytes.len() == 0 {
        return false;
    }
    let n = bytes.len();
    let mut i: usize = 0;
    while i < n
        invariant
            i <= n,
            n == bytes@.len(),
            forall|j: int| 0 <= j < i ==> bytes@[j] != 0,
        decreases n - i,
    {
        if bytes[i] == 0 {
            return false;
        }
        i = i + 1;
    }
    check_utf8(bytes)
}

} // verus!
