//! Decimal rendering of unsigned integers.
//!
//! The display layer renders numbers as ASCII decimal with no leading zero
//! (except the value zero itself, which is the single digit `0`). The digits
//! are collected least-significant-first into a fixed-capacity buffer and
//! reversed, exactly as a no-allocation firmware routine would do it.

use vstd::prelude::*;

verus! {

/// ASCII code of the digit `0`.
pub const ASCII_ZERO: u8 = 0x30;

/// Decimal digit stream of `n`, most significant digit first, with no
/// leading zero; `0` renders as the single digit `0`.
pub open spec fn spec_decimal(n: nat) -> Seq<u8>
    decreases n,
{
    if n < 10 {
        seq![(n + 0x30) as u8]
    } else {
        spec_decimal(n / 10).push(((n % 10) + 0x30) as u8)
    }
}

/// Standard decimal parsing: the value that a digit stream denotes.
pub open spec fn spec_parse_decimal(s: Seq<u8>) -> int
    decreases s.len(),
{
    if s.len() == 0 {
        0
    } else {
        spec_parse_decimal(s.drop_last()) * 10 + (s.last() - 0x30)
    }
}

/// Every byte of the digit stream is an ASCII decimal digit.
pub proof fn lemma_decimal_digits_ascii(n: nat)
    ensures
        forall|i: int|
            0 <= i < spec_decimal(n).len() ==> 0x30 <= #[trigger] spec_decimal(n)[i] <= 0x39,
    decreases n,
{
    if n >= 10 {
        lemma_decimal_digits_ascii(n / 10);
        assert forall|i: int| 0 <= i < spec_decimal(n).len() implies 0x30 <= #[trigger] spec_decimal(
            n,
        )[i] <= 0x39 by {
            if i < spec_decimal(n / 10).len() {
                assert(spec_decimal(n)[i] == spec_decimal(n / 10)[i]);
            }
        }
    }
}

/// The digit stream of `n` parses back to exactly `n`, is never empty, and
/// has no leading zero unless `n` itself is zero.
pub proof fn lemma_decimal_round_trip(n: nat)
    ensures
        spec_parse_decimal(spec_decimal(n)) == n,
        spec_decimal(n).len() > 0,
        n == 0 ==> spec_decimal(n) == seq![0x30u8],
        n > 0 ==> spec_decimal(n)[0] != 0x30,
    decreases n,
{
    if n < 10 {
        let s = spec_decimal(n);
        assert(s.drop_last() =~= Seq::<u8>::empty());
        assert(spec_parse_decimal(Seq::<u8>::empty()) == 0);
        assert(s.last() == (n + 0x30) as u8);
        assert((n + 0x30) as u8 == n + 0x30);
        assert(spec_parse_decimal(s) == spec_parse_decimal(s.drop_last()) * 10 + (s.last()
            - 0x30));
        assert(n == 0 ==> s =~= seq![0x30u8]);
    } else {
        lemma_decimal_round_trip(n / 10);
        let p = spec_decimal(n / 10);
        let s = spec_decimal(n);
        assert(s.drop_last() =~= p);
        assert(spec_parse_decimal(s) == spec_parse_decimal(p) * 10 + (n % 10));
        assert(spec_parse_decimal(s) == (n / 10) * 10 + (n % 10));
        assert((n / 10) * 10 + (n % 10) == n) by {
            vstd::arithmetic::div_mod::lemma_fundamental_div_mod(n as int, 10);
        }
        assert(s[0] == p[0]);
    }
}

/// Render `num` as ASCII decimal, least-significant digits gathered first
/// and reversed in place, as the display layer sends them.
pub fn format_number(num: u32) -> (r: Vec<u8>)
    ensures
        r@ == spec_decimal(num as nat),
{
    let mut digits: Vec<u8> = Vec::new();
    if num == 0 {
        digits.push(ASCII_ZERO);
        proof {
            assert(digits@ =~= spec_decimal(0));
        }
        return digits;
    }
    let mut n: u32 = num;
    while n > 0
        invariant
            n > 0 ==> spec_decimal(num as nat) == spec_decimal(n as nat)
                + digits@.reverse(),
            n == 0 ==> spec_decimal(num as nat) == digits@.reverse(),
            num > 0,
        decreases n,
    {
        let d: u8 = (n % 10) as u8 + ASCII_ZERO;
        proof {
            let ghost old_digits = digits@;
            assert(old_digits.push(d).reverse() =~= seq![d] + old_digits.reverse());
            if n >= 10 {
                assert(spec_decimal(n as nat) == spec_decimal((n / 10) as nat).push(d));
                assert(spec_decimal((n / 10) as nat).push(d) =~= spec_decimal((n / 10) as nat)
                    + seq![d]);
                assert(spec_decimal((n / 10) as nat) + seq![d] + old_digits.reverse()
                    =~= spec_decimal((n / 10) as nat) + (seq![d] + old_digits.reverse()));
            } else {
                assert(spec_decimal(n as nat) =~= seq![d]);
                assert(seq![d] + old_digits.reverse() =~= old_digits.push(d).reverse());
            }
        }
        digits.push(d);
        n = n / 10;
    }
    let mut r: Vec<u8> = Vec::new();
    let mut i: usize = digits.len();
    while i > 0
        invariant
            i <= digits.len(),
            r@.len() == digits.len() - i,
            forall|k: int|
                0 <= k < r@.len() ==> #[trigger] r@[k] == digits@[digits@.len() - 1 - k],
        decreases i,
    {
        i = i - 1;
        r.push(digits[i]);
    }
    proof {
        assert(r@ =~= digits@.reverse());
    }
    r
}

} // verus!
