//! What numerals promise.

use vstd::arithmetic::div_mod::lemma_div_denominator;
use vstd::arithmetic::power::{lemma_pow0, lemma_pow1, lemma_pow_positive, pow};
use vstd::prelude::*;

use crate::decimal;

verus! {

proof fn numeral_has_the_digits_of(n: nat)
    ensures
        decimal::numeral(n).len() > 0,
        n < pow(10, decimal::numeral(n).len()),
        decimal::numeral(n).len() > 1 ==> pow(10, (decimal::numeral(n).len() - 1) as nat) <= n,
        forall|i: int|
            0 <= i < decimal::numeral(n).len() ==> #[trigger] decimal::numeral(n)[i] as int
                - '0' as int == (n as int / pow(10, (decimal::numeral(n).len() - 1 - i) as nat))
                % 10,
    decreases n,
{
    let text = decimal::numeral(n);
    if n < 10 {
        lemma_pow0(10);
        lemma_pow1(10);
    } else {
        let head = decimal::numeral(n / 10);
        numeral_has_the_digits_of(n / 10);
        reveal(pow);
        assert(text.len() == head.len() + 1);
        assert(pow(10, text.len()) == 10 * pow(10, head.len()));
        assert(pow(10, head.len()) == 10 * pow(10, (head.len() - 1) as nat));
        if head.len() == 1 {
            lemma_pow0(10);
        }
        assert forall|i: int| 0 <= i < text.len() implies #[trigger] text[i] as int - '0' as int
            == (n as int / pow(10, (text.len() - 1 - i) as nat)) % 10 by {
            if i < head.len() {
                let power = pow(10, (head.len() - 1 - i) as nat);
                assert(text[i] == head[i]);
                assert(pow(10, (text.len() - 1 - i) as nat) == 10 * power);
                lemma_pow_positive(10, (head.len() - 1 - i) as nat);
                lemma_div_denominator(n as int, 10, power);
            } else {
                lemma_pow0(10);
            }
        }
    }
}

/// A number is written in decimal, most significant digit first and without leading zeros: the
/// digit with `k` digits behind it is the one that counts powers of ten to the `k`.
pub proof fn numbers_are_written_in_decimal(n: u64, text: String)
    requires
        call_ensures(decimal::decimal_text, (n,), text),
    ensures
        text@.len() > 0,
        n < pow(10, text@.len()),
        text@.len() > 1 ==> pow(10, (text@.len() - 1) as nat) <= n,
        forall|i: int|
            0 <= i < text@.len() ==> #[trigger] text@[i] as int - '0' as int == (n as int / pow(
                10,
                (text@.len() - 1 - i) as nat,
            )) % 10,
{
    numeral_has_the_digits_of(n as nat);
}

} // verus!
