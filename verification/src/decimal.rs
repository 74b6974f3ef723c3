//! Numbers written in decimal digits.
use vstd::arithmetic::div_mod::lemma_div_denominator;
use vstd::arithmetic::power::{lemma_pow0, lemma_pow1, lemma_pow_positive, pow};
use vstd::prelude::*;

use crate::ctext::{is_nul_free, CText};

verus! {

/// `n` in decimal digits, without leading zeros.
pub open spec fn decimal(n: nat) -> Seq<u8>
    decreases n,
{
    if n < 10 {
        seq![(48 + n) as u8]
    } else {
        decimal(n / 10).push((48 + n % 10) as u8)
    }
}

/// The number that a run of decimal digits stands for.
pub open spec fn value_of(digits: Seq<u8>) -> int
    decreases digits.len(),
{
    if digits.len() == 0 {
        0
    } else {
        value_of(digits.drop_last()) * 10 + (digits.last() - 48)
    }
}

/// Whether `bytes` are decimal digits throughout.
pub open spec fn all_digits(bytes: Seq<u8>) -> bool {
    forall|i: int| 0 <= i < bytes.len() ==> 48 <= #[trigger] bytes[i] <= 57
}

/// Reading back what was written gives the number, and what was written is a plain numeral: one
/// digit at least, digits only, and no zero in front of another digit.
pub proof fn law_decimal_round_trip(n: nat)
    ensures
        value_of(decimal(n)) == n,
        decimal(n).len() >= 1,
        all_digits(decimal(n)),
        decimal(n).len() > 1 ==> decimal(n)[0] != 48,
    decreases n,
{
    if n < 10 {
        assert(decimal(n).drop_last() =~= Seq::<u8>::empty());
        assert(value_of(Seq::<u8>::empty()) == 0);
    } else {
        law_decimal_round_trip(n / 10);
        assert(decimal(n).drop_last() =~= decimal(n / 10));
        if decimal(n / 10).len() == 1 {
            assert(decimal(n / 10)[0] != 48) by {
                assert(value_of(decimal(n / 10)) >= 1);
                assert(decimal(n / 10).drop_last() =~= Seq::<u8>::empty());
                assert(value_of(Seq::<u8>::empty()) == 0);
            }
        }
    }
}

/// Different numbers are written differently.
pub proof fn law_decimal_injective(m: nat, n: nat)
    requires
        decimal(m) == decimal(n),
    ensures
        m == n,
{
    law_decimal_round_trip(m);
    law_decimal_round_trip(n);
}

/// `n` in decimal digits.
fn decimal_bytes(n: u32) -> (digits: Vec<u8>)
    ensures
        digits@ == decimal(n as nat),
    decreases n,
{
    if n < 10 {
        let mut digits: Vec<u8> = Vec::new();
        digits.push(48 + n as u8);
        digits
    } else {
        let mut digits: Vec<u8> = decimal_bytes(n / 10);
        digits.push(48 + (n % 10) as u8);
        digits
    }
}

/// `n` in decimal digits, as text for the C client.
pub fn decimal_text(n: u32) -> (text: CText)
    ensures
        text@ == decimal(n as nat),
{
    let digits: Vec<u8> = decimal_bytes(n);
    proof {
        law_decimal_round_trip(n as nat);
    }
    match CText::new(digits) {
        Ok(text) => text,
        Err(_) => {
            assert(is_nul_free(decimal(n as nat)));
            vstd::pervasive::unreached()
        },
    }
}

/// The numeral of `n` is what every reader of decimals expects: counted from the end, its digit
/// number `i` is the digit of `n` at ten to the `i`, and it has no more digits than `n` needs.
pub proof fn law_decimal_digits(n: nat)
    ensures
        decimal(n).len() >= 1,
        n < pow(10, decimal(n).len()),
        decimal(n).len() > 1 ==> pow(10, (decimal(n).len() - 1) as nat) <= n,
        forall|i: int|
            0 <= i < decimal(n).len() ==> #[trigger] decimal(n)[decimal(n).len() - 1 - i] == 48 + (
            n as int / pow(10, i as nat)) % 10,
    decreases n,
{
    let digits = decimal(n);
    lemma_pow0(10);
    lemma_pow1(10);
    if n >= 10 {
        let shorter = decimal(n / 10);
        law_decimal_digits(n / 10);
        let len = shorter.len();
        assert(pow(10, len + 1) == 10 * pow(10, len)) by {
            reveal(pow);
        }
        assert(len > 1 ==> pow(10, len) == 10 * pow(10, (len - 1) as nat)) by {
            reveal(pow);
        }
        assert forall|i: int| 0 <= i < digits.len() implies #[trigger] digits[digits.len() - 1 - i]
            == 48 + (n as int / pow(10, i as nat)) % 10 by {
            if i > 0 {
                assert(digits[digits.len() - 1 - i] == shorter[shorter.len() - 1 - (i - 1)]);
                lemma_pow_positive(10, (i - 1) as nat);
                assert(pow(10, i as nat) == 10 * pow(10, (i - 1) as nat)) by {
                    reveal(pow);
                }
                lemma_div_denominator(n as int, 10, pow(10, (i - 1) as nat));
            }
        }
    }
}

} // verus!
