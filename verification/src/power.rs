//! Reading a declared power: a decimal number from 0 to 255, written with an
//! optional leading plus sign.

use vstd::prelude::*;
use vstd::string::*;

verus! {

/// Whether `b` is an ASCII decimal digit.
pub open spec fn is_digit(b: u8) -> bool {
    48 <= b <= 57
}

/// The number that the decimal digits `s` write, most significant first;
/// nothing where one of them is no digit. No digits write zero.
pub open spec fn digits_value(s: Seq<u8>) -> Option<nat>
    decreases s.len(),
{
    if s.len() == 0 {
        Some(0)
    } else {
        match digits_value(s.drop_last()) {
            None => None,
            Some(v) => if is_digit(s.last()) {
                Some(v * 10 + (s.last() - 48) as nat)
            } else {
                None
            },
        }
    }
}

/// The power that the bytes `text` declare: after an optional plus sign, at
/// least one digit and nothing but digits, writing a number of at most 255.
pub open spec fn declared_power(text: Seq<u8>) -> Option<u8> {
    let digits = if text.len() > 0 && text[0] == 43 {
        text.skip(1)
    } else {
        text
    };
    if digits.len() == 0 {
        None
    } else {
        match digits_value(digits) {
            Some(v) => if v <= 255 {
                Some(v as u8)
            } else {
                None
            },
            None => None,
        }
    }
}

/// Digits that fail to write a number up to some point fail as a whole.
pub proof fn lemma_digits_none_extends(s: Seq<u8>, n: int)
    requires
        0 <= n <= s.len(),
        digits_value(s.take(n)) is None,
    ensures
        digits_value(s) is None,
    decreases s.len(),
{
    if n == s.len() {
        assert(s.take(n) =~= s);
    } else {
        assert(s.drop_last().take(n) =~= s.take(n));
        lemma_digits_none_extends(s.drop_last(), n);
    }
}

/// Reads a declared power from `text`.
pub fn parse_power(text: &str) -> (r: Option<u8>)
    ensures
        r == declared_power(text.spec_bytes()),
{
    let bytes = text.as_bytes();
    let start: usize = if bytes.len() > 0 && bytes[0] == 43 {
        1
    } else {
        0
    };
    if start == bytes.len() {
        return None;
    }
    let ghost digits = bytes@.skip(start as int);
    let mut total: u16 = 0;
    let mut i: usize = start;
    while i < bytes.len()
        invariant
            start <= i <= bytes@.len(),
            start < bytes@.len(),
            bytes@ == text.spec_bytes(),
            start == if bytes@.len() > 0 && bytes@[0] == 43 {
                1usize
            } else {
                0usize
            },
            digits == bytes@.skip(start as int),
            digits_value(digits.take(i - start)) is Some,
            total <= 256,
            total == if digits_value(digits.take(i - start))->0 <= 255 {
                digits_value(digits.take(i - start))->0
            } else {
                256
            },
        decreases bytes@.len() - i,
    {
        let b = bytes[i];
        proof {
            assert(digits.take(i + 1 - start).drop_last() =~= digits.take(i - start));
            assert(digits.take(i + 1 - start).last() == b);
        }
        if b < 48 || b > 57 {
            proof {
                assert(digits_value(digits.take(i + 1 - start)) is None);
                lemma_digits_none_extends(digits, i + 1 - start);
                assert(bytes@.skip(0) =~= bytes@);
            }
            return None;
        }
        let next: u16 = total * 10 + (b - 48) as u16;
        total = if next > 255 {
            256
        } else {
            next
        };
        i += 1;
    }
    proof {
        assert(digits.take(i - start) =~= digits);
        assert(bytes@.skip(0) =~= bytes@);
    }
    if total > 255 {
        None
    } else {
        Some(total as u8)
    }
}

} // verus!
