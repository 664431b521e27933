//! Numbers in texts.

use vstd::prelude::*;

use crate::text::{characters, decimal};

verus! {

/// Whether a character is a decimal digit.
pub open spec fn is_digit(c: char) -> bool {
    '0' <= c <= '9'
}

/// Whether a text is made of decimal digits, at least one.
pub open spec fn all_digits(s: Seq<char>) -> bool {
    s.len() > 0 && forall|i: int| 0 <= i < s.len() ==> is_digit(#[trigger] s[i])
}

/// The number that digits stand for.
pub open spec fn digits_value(s: Seq<char>) -> nat
    decreases s.len(),
{
    if s.len() == 0 {
        0
    } else {
        digits_value(s.drop_last()) * 10 + ((s.last() as u32) - 48) as nat
    }
}

/// The number in a text of digits that may start with a plus sign.
pub open spec fn unsigned_value(s: Seq<char>) -> Option<nat> {
    let d = if s.len() > 0 && s[0] == '+' {
        s.skip(1)
    } else {
        s
    };
    if all_digits(d) {
        Some(digits_value(d))
    } else {
        None
    }
}

/// The number in a text of digits that may start with a sign.
pub open spec fn signed_value(s: Seq<char>) -> Option<int> {
    if s.len() > 0 && s[0] == '-' {
        if all_digits(s.skip(1)) {
            Some(-(digits_value(s.skip(1)) as int))
        } else {
            None
        }
    } else {
        match unsigned_value(s) {
            Some(n) => Some(n as int),
            None => None,
        }
    }
}

proof fn lemma_longer(s: Seq<char>, n: int)
    requires
        0 <= n <= s.len(),
    ensures
        digits_value(s.take(n)) <= digits_value(s),
    decreases s.len(),
{
    if n < s.len() {
        lemma_longer(s.drop_last(), n);
        assert(s.drop_last().take(n) =~= s.take(n));
        assert(digits_value(s.drop_last()) * 10 >= digits_value(s.drop_last())) by (nonlinear_arith);
    } else {
        assert(s.take(n) =~= s);
    }
}

fn read_digits(chars: &Vec<char>, from: usize) -> (r: Option<u64>)
    requires
        from <= chars.len(),
    ensures
        r == (if all_digits(chars@.skip(from as int)) && digits_value(chars@.skip(from as int)) <= u64::MAX {
            Some(digits_value(chars@.skip(from as int)) as u64)
        } else {
            None
        }),
{
    let ghost s = chars@.skip(from as int);
    if from == chars.len() {
        return None;
    }
    let mut n: u64 = 0;
    assert(s.take(0) =~= Seq::empty());
    for i in from..chars.len()
        invariant
            from <= i <= chars.len(),
            s == chars@.skip(from as int),
            n == digits_value(s.take(i - from)),
            forall|k: int| 0 <= k < i - from ==> is_digit(#[trigger] s[k]),
    {
        let c = chars[i];
        assert(s[i - from] == c);
        if c < '0' || c > '9' {
            assert(!is_digit(s[i - from]));
            return None;
        }
        let d: u64 = ((c as u32) - 48) as u64;
        assert(s.take(i - from + 1).drop_last() =~= s.take(i - from));
        assert(s.take(i - from + 1).last() == c);
        proof {
            lemma_longer(s, i - from + 1);
        }
        if n > (u64::MAX - d) / 10 {
            assert(n * 10 + d > u64::MAX);
            return None;
        }
        n = n * 10 + d;
    }
    assert(s.take(s.len() as int) =~= s);
    Some(n)
}

/// Reads a number without a minus sign.
pub fn parse_unsigned(s: &str) -> (r: Option<u64>)
    ensures
        r == (match unsigned_value(s@) {
            Some(n) => if n <= u64::MAX {
                Some(n as u64)
            } else {
                None
            },
            None => None,
        }),
{
    let chars = characters(s);
    if chars.len() > 0 && chars[0] == '+' {
        read_digits(&chars, 1)
    } else {
        assert(chars@.skip(0) =~= chars@);
        read_digits(&chars, 0)
    }
}

/// Reads a number that may have a sign.
pub fn parse_signed(s: &str) -> (r: Option<i64>)
    ensures
        r == (match signed_value(s@) {
            Some(n) => if i64::MIN <= n <= i64::MAX {
                Some(n as i64)
            } else {
                None
            },
            None => None,
        }),
{
    let chars = characters(s);
    if chars.len() > 0 && chars[0] == '-' {
        match read_digits(&chars, 1) {
            None => None,
            Some(n) => if n < 9223372036854775808 {
                Some(0 - (n as i64))
            } else if n == 9223372036854775808 {
                Some(i64::MIN)
            } else {
                None
            },
        }
    } else {
        match parse_unsigned(s) {
            None => None,
            Some(n) => if n <= 9223372036854775807 {
                Some(n as i64)
            } else {
                None
            },
        }
    }
}

/// The number of bytes of a character.
pub open spec fn char_bytes(c: char) -> nat {
    if (c as u32) < 0x80 {
        1
    } else if (c as u32) < 0x800 {
        2
    } else if (c as u32) < 0x10000 {
        3
    } else {
        4
    }
}

/// The number of bytes of a text.
pub open spec fn byte_length(s: Seq<char>) -> nat
    decreases s.len(),
{
    if s.len() == 0 {
        0
    } else {
        byte_length(s.drop_last()) + char_bytes(s.last())
    }
}

proof fn lemma_bytes_grow(s: Seq<char>, n: int)
    requires
        0 <= n <= s.len(),
    ensures
        byte_length(s.take(n)) <= byte_length(s),
    decreases s.len(),
{
    if n < s.len() {
        lemma_bytes_grow(s.drop_last(), n);
        assert(s.drop_last().take(n) =~= s.take(n));
    } else {
        assert(s.take(n) =~= s);
    }
}

/// Decides whether a text has more bytes than a limit.
pub fn longer_than(s: &str, limit: usize) -> (r: bool)
    ensures
        r == (byte_length(s@) > limit),
{
    let chars = characters(s);
    let mut left: usize = limit;
    assert(chars@.take(0) =~= Seq::empty());
    for i in 0..chars.len()
        invariant
            chars@ == s@,
            left + byte_length(chars@.take(i as int)) == limit,
    {
        let code: u32 = chars[i] as u32;
        let n: usize = if code < 0x80 {
            1
        } else if code < 0x800 {
            2
        } else if code < 0x10000 {
            3
        } else {
            4
        };
        assert(chars@.take(i + 1).drop_last() =~= chars@.take(i as int));
        if left < n {
            proof {
                lemma_bytes_grow(chars@, i + 1);
            }
            return true;
        }
        left = left - n;
    }
    assert(chars@.take(chars@.len() as int) =~= chars@);
    false
}

/// A number that is written in decimal reads back as itself.
pub proof fn lemma_decimal_read(n: nat)
    ensures
        all_digits(decimal(n)),
        digits_value(decimal(n)) == n,
        unsigned_value(decimal(n)) == Some(n),
    decreases n,
{
    if n >= 10 {
        lemma_decimal_read(n / 10);
        let d = decimal(n / 10).push((48 + n % 10) as char);
        assert(decimal(n) == d);
        assert(d.drop_last() =~= decimal(n / 10));
        assert forall|i: int| 0 <= i < d.len() implies is_digit(#[trigger] d[i]) by {
            if i < decimal(n / 10).len() {
                assert(d[i] == decimal(n / 10)[i]);
            }
        }
        assert(is_digit(decimal(n / 10)[0]));
        assert(d[0] == decimal(n / 10)[0]);
    } else {
        let d = decimal(n);
        assert(d.drop_last() =~= Seq::empty());
        assert(digits_value(Seq::<char>::empty()) == 0);
        assert(d.last() == (48 + n) as char);
    }
}

} // verus!
