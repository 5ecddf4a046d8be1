//! Decimal notation of integers, as `Display` writes them.

use vstd::prelude::*;
use vstd::utf8::{
    encode_utf8, encode_utf8_decode_utf8, encode_utf8_valid_utf8,
    is_ascii_chars, is_ascii_chars_encode_utf8,
};

use crate::codec::string_from_utf8;

verus! {

/// The character of the decimal digit `d`.
pub open spec fn digit_char(d: nat) -> char {
    (48 + d) as char
}

/// The decimal digits of `n`, without leading zeros (`0` for zero).
pub open spec fn decimal_digits(n: nat) -> Seq<char>
    decreases n,
{
    if n < 10 {
        seq![digit_char(n)]
    } else {
        decimal_digits(n / 10).push(digit_char(n % 10))
    }
}

/// The decimal notation of `n`, with a leading `-` when it is negative.
pub open spec fn decimal(n: int) -> Seq<char> {
    if n < 0 {
        seq!['-'] + decimal_digits((-n) as nat)
    } else {
        decimal_digits(n as nat)
    }
}

/// The number that a string of decimal digits denotes, most significant first.
pub open spec fn digits_value(s: Seq<char>) -> int
    decreases s.len(),
{
    if s.len() == 0 {
        0
    } else {
        digits_value(s.drop_last()) * 10 + (s.last() as int - 48)
    }
}

/// The decimal digits of `n` are digits `0`-`9`, start with a digit other
/// than `0` unless `n` is zero, and denote `n`.
pub proof fn lemma_decimal_digits_denote(n: nat)
    ensures
        forall|i: int| 0 <= i < decimal_digits(n).len() ==> '0' <= #[trigger] decimal_digits(n)[i] <= '9',
        n >= 10 ==> decimal_digits(n)[0] != '0',
        n < 10 ==> decimal_digits(n).len() == 1,
        digits_value(decimal_digits(n)) == n,
    decreases n,
{
    let d = decimal_digits(n);
    if n < 10 {
        assert(digit_char(n) as int == 48 + n);
        assert(d.drop_last() =~= Seq::<char>::empty());
        assert(digits_value(d.drop_last()) == 0);
        assert(d.last() == digit_char(n));
        assert(digits_value(d) == digits_value(d.drop_last()) * 10 + (d.last() as int - 48));
    } else {
        lemma_decimal_digits_denote(n / 10);
        let r = n % 10;
        assert(digit_char(r) as int == 48 + r);
        let prefix = decimal_digits(n / 10);
        assert(d.drop_last() =~= prefix);
        assert(d[0] == prefix[0]);
        assert forall|i: int| 0 <= i < d.len() implies '0' <= #[trigger] d[i] <= '9' by {
            if i < prefix.len() {
                assert(d[i] == prefix[i]);
            }
        }
        if n / 10 < 10 {
            assert(prefix[0] == digit_char(n / 10));
            assert(digit_char(n / 10) as int == 48 + n / 10);
        }
        assert(d.last() == digit_char(r));
        assert(digits_value(d) == digits_value(d.drop_last()) * 10 + (d.last() as int - 48));
        assert((n / 10) * 10 + r == n);
    }
}

proof fn lemma_digits_ascii(n: nat)
    ensures
        is_ascii_chars(decimal_digits(n)),
        decimal_digits(n).len() >= 1,
    decreases n,
{
    if n >= 10 {
        lemma_digits_ascii(n / 10);
    }
}

/// The UTF-8 bytes of the decimal digits of `n`, least significant last.
fn digit_bytes(n: u128) -> (res: Vec<u8>)
    ensures
        res@ == encode_utf8(decimal_digits(n as nat)),
{
    let mut rev: Vec<u8> = Vec::new();
    let mut m: u128 = n;
    let ghost mut done: Seq<char> = Seq::empty();
    loop
        invariant_except_break
            decimal_digits(n as nat) == decimal_digits(m as nat) + done,
        invariant
            rev@.len() == done.len(),
            forall|i: int| 0 <= i < done.len() ==> rev@[i] == done[done.len() - 1 - i] as u8,
        ensures
            decimal_digits(n as nat) == done,
        decreases m,
    {
        let d = (m % 10) as u8;
        rev.push(48 + d);
        proof {
            let old_done = done;
            done = seq![digit_char((m % 10) as nat)] + old_done;
            if m >= 10 {
                assert(decimal_digits((m / 10) as nat) + done =~= decimal_digits((m / 10) as nat).push(
                    digit_char((m % 10) as nat),
                ) + old_done);
            } else {
                assert(decimal_digits(m as nat) + old_done =~= done);
            }
            assert forall|i: int| 0 <= i < done.len() implies rev@[i] == done[done.len() - 1 - i] as u8 by {
                if i < old_done.len() {
                    assert(done[done.len() - 1 - i] == old_done[old_done.len() - 1 - i]);
                }
            }
        }
        if m < 10 {
            break;
        }
        m = m / 10;
    }
    let mut res: Vec<u8> = Vec::new();
    let mut k: usize = rev.len();
    while k > 0
        invariant
            k <= rev@.len(),
            rev@.len() == done.len(),
            res@.len() == rev@.len() - k,
            forall|i: int| 0 <= i < res@.len() ==> res@[i] == rev@[rev@.len() - 1 - i],
        decreases k,
    {
        k = k - 1;
        res.push(rev[k]);
    }
    proof {
        lemma_digits_ascii(n as nat);
        is_ascii_chars_encode_utf8(done);
        assert(res@ =~= encode_utf8(done));
    }
    res
}

/// Writes `n` in decimal.
pub fn u128_decimal(n: u128) -> (res: String)
    ensures
        res@ == decimal(n as int),
{
    let bytes = digit_bytes(n);
    proof {
        encode_utf8_valid_utf8(decimal_digits(n as nat));
        encode_utf8_decode_utf8(decimal_digits(n as nat));
    }
    match string_from_utf8(bytes) {
        Some(s) => s,
        None => String::new(),
    }
}

/// Writes `n` in decimal, with a leading `-` when it is negative.
pub fn i32_decimal(n: i32) -> (res: String)
    ensures
        res@ == decimal(n as int),
{
    if n < 0 {
        let magnitude: u128 = (-(n as i64)) as u128;
        let digits = u128_decimal(magnitude);
        let res = "-".to_owned().concat(digits.as_str());
        proof {
            reveal_strlit("-");
            assert(res@ =~= decimal(n as int));
        }
        res
    } else {
        u128_decimal(n as u128)
    }
}

} // verus!
