//! Coin amounts: the auction-house fee, profits, and amounts as text.

use vstd::prelude::*;

use crate::text::{
    all_digits, chars_of, decimal, is_digit, lemma_decimal_value, magnitude, parsed_u64,
    text_between, to_decimal, without_commas,
};

verus! {

/// The auction-house fee on a sale at `price`: 1% below ten million coins, 2% below a hundred
/// million, 2.5% from there on, rounded down.
pub open spec fn ah_fee(price: nat) -> nat {
    if price < 10_000_000 {
        price / 100
    } else if price < 100_000_000 {
        price * 2 / 100
    } else {
        price * 25 / 1000
    }
}

/// The auction-house fee on a sale at `price`.
pub fn calculate_ah_fee(price: u64) -> (r: u64)
    ensures
        r == ah_fee(price as nat),
{
    if price < 10_000_000 {
        price / 100
    } else if price < 100_000_000 {
        price * 2 / 100
    } else {
        price / 40
    }
}

/// The fee is at most a fortieth of the price.
pub proof fn law_fee_is_at_most_a_fortieth(price: nat)
    ensures
        40 * ah_fee(price) <= price,
{
}

/// A higher price never pays a lower fee.
pub proof fn law_fee_is_monotone(low: nat, high: nat)
    requires
        low <= high,
    ensures
        ah_fee(low) <= ah_fee(high),
{
}

/// What is left of a sale at a higher price, after the fee, is not less within one fee tier.
pub proof fn law_proceeds_grow_within_a_tier(low: nat, high: nat)
    requires
        low <= high,
        high < 10_000_000 || (10_000_000 <= low && high < 100_000_000) || 100_000_000 <= low,
    ensures
        low - ah_fee(low) <= high - ah_fee(high),
{
}

/// `digits` with a comma before every third digit counted from the end.
pub open spec fn grouped(digits: Seq<char>) -> Seq<char>
    decreases digits.len(),
{
    if digits.len() <= 3 {
        digits
    } else {
        grouped(digits.take(digits.len() - 3)) + seq![','] + digits.skip(digits.len() - 3)
    }
}

/// A coin amount with thousands separators.
pub open spec fn coins_text(amount: int) -> Seq<char> {
    if amount < 0 {
        seq!['-'] + grouped(decimal((-amount) as nat))
    } else {
        grouped(decimal(amount as nat))
    }
}

/// Format a coin amount with thousands separators, such as `24,000,000` or `-500,000`.
pub fn format_coins(amount: i64) -> (r: String)
    ensures
        r@ == coins_text(amount as int),
{
    let size: u64 = magnitude(amount);
    let digits_text = to_decimal(size);
    let digits = chars_of(digits_text.as_str());
    let total: usize = digits.len();
    proof {
        lemma_decimal_value(size as nat);
    }
    let first: usize = if total % 3 == 0 {
        3
    } else {
        total % 3
    };
    let head = text_between(&digits, 0, first);
    let mut formatted = String::new();
    formatted.append(head.as_str());
    let mut at: usize = first;
    proof {
        assert(formatted@ =~= digits@.take(first as int));
    }
    while at < total
        invariant
            total == digits@.len(),
            1 <= at <= total,
            (total - at) % 3 == 0,
            formatted@ == grouped(digits@.take(at as int)),
        decreases total - at,
    {
        let ghost longer = digits@.take(at + 3);
        let group = text_between(&digits, at, at + 3);
        formatted.push(',');
        formatted.append(group.as_str());
        proof {
            assert(longer.take(longer.len() - 3) =~= digits@.take(at as int));
            assert(longer.skip(longer.len() - 3) =~= group@);
            assert(formatted@ =~= grouped(longer));
        }
        at = at + 3;
    }
    proof {
        assert(digits@.take(total as int) =~= digits@);
    }
    if amount < 0 {
        let mut r = String::new();
        r.push('-');
        r.append(formatted.as_str());
        proof {
            assert(r@ =~= coins_text(amount as int));
        }
        r
    } else {
        formatted
    }
}

/// Taking commas out of two texts one after the other.
pub proof fn lemma_without_commas_concat(a: Seq<char>, b: Seq<char>)
    ensures
        without_commas(a + b) == without_commas(a) + without_commas(b),
    decreases b.len(),
{
    reveal(Seq::filter);
    if b.len() == 0 {
        assert(a + b =~= a);
        assert(without_commas(b) =~= Seq::empty());
        assert(without_commas(a) + Seq::<char>::empty() =~= without_commas(a));
    } else {
        lemma_without_commas_concat(a, b.drop_last());
        assert((a + b).drop_last() =~= a + b.drop_last());
        assert((a + b).last() == b.last());
        if b.last() != ',' {
            assert(without_commas(a + b) =~= without_commas(a) + without_commas(b));
        }
    }
}

/// Digits hold no comma.
pub proof fn lemma_digits_have_no_commas(digits: Seq<char>)
    requires
        all_digits(digits),
    ensures
        without_commas(digits) == digits,
    decreases digits.len(),
{
    reveal(Seq::filter);
    if digits.len() > 0 {
        assert(is_digit(digits.last()));
        lemma_digits_have_no_commas(digits.drop_last());
        assert(digits.drop_last().push(digits.last()) =~= digits);
    } else {
        assert(without_commas(digits) =~= digits);
    }
}

/// Taking the separators out of a grouped number gives its digits back.
pub proof fn law_separators_come_out_again(digits: Seq<char>)
    requires
        all_digits(digits),
    ensures
        without_commas(grouped(digits)) == digits,
    decreases digits.len(),
{
    if digits.len() <= 3 {
        lemma_digits_have_no_commas(digits);
    } else {
        let head = digits.take(digits.len() - 3);
        let tail = digits.skip(digits.len() - 3);
        law_separators_come_out_again(head);
        lemma_digits_have_no_commas(tail);
        lemma_without_commas_concat(grouped(head) + seq![','], tail);
        lemma_without_commas_concat(grouped(head), seq![',']);
        assert(without_commas(seq![',']) =~= Seq::empty()) by {
            reveal(Seq::filter);
            assert(seq![','].drop_last() =~= Seq::<char>::empty());
            assert(Seq::<char>::empty().filter(|c: char| c != ',') =~= Seq::empty());
        }
        assert(head + Seq::<char>::empty() + tail =~= digits);
    }
}

/// Reading a formatted amount, without its separators, gives the amount back.
pub proof fn law_formatted_amount_is_read_back(amount: u64)
    ensures
        parsed_u64(without_commas(grouped(decimal(amount as nat)))) == Some(amount),
{
    lemma_decimal_value(amount as nat);
    law_separators_come_out_again(decimal(amount as nat));
}

/// A number with separators is made of digits and commas.
pub proof fn lemma_grouped_chars(digits: Seq<char>)
    requires
        all_digits(digits),
        digits.len() > 0,
    ensures
        grouped(digits).len() > 0,
        forall|i: int|
            0 <= i < grouped(digits).len() ==> is_digit(#[trigger] grouped(digits)[i])
                || grouped(digits)[i] == ',',
    decreases digits.len(),
{
    if digits.len() > 3 {
        lemma_grouped_chars(digits.take(digits.len() - 3));
    }
}

/// The fee is what its tier says, rounded down to whole coins: a hundredth of a price below ten
/// million coins, a fiftieth of one below a hundred million, and a fortieth of any higher one.
pub proof fn law_fee_is_what_its_tier_says(price: nat)
    ensures
        price < 10_000_000 ==> 100 * ah_fee(price) <= price < 100 * (ah_fee(price) + 1),
        10_000_000 <= price < 100_000_000 ==> 50 * ah_fee(price) <= price < 50 * (ah_fee(price)
            + 1),
        100_000_000 <= price ==> 40 * ah_fee(price) <= price < 40 * (ah_fee(price) + 1),
{
}

/// A separator stands before every group of three digits, counted from the end, and nowhere else:
/// never at the front, and never at the end.
pub proof fn law_separators_stand_before_groups_of_three(digits: Seq<char>, from_end: int)
    requires
        all_digits(digits),
        0 <= from_end < grouped(digits).len(),
    ensures
        grouped(digits)[grouped(digits).len() - 1 - from_end] == ',' <==> from_end % 4 == 3,
        grouped(digits)[0] != ',',
    decreases digits.len(),
{
    let g = grouped(digits);
    if digits.len() <= 3 {
        assert(is_digit(digits[digits.len() - 1 - from_end]));
        assert(is_digit(digits[0]));
    } else {
        let head = digits.take(digits.len() - 3);
        let inner = grouped(head);
        lemma_grouped_chars(head);
        law_separators_stand_before_groups_of_three(head, 0);
        if from_end >= 4 {
            law_separators_stand_before_groups_of_three(head, from_end - 4);
            assert(g[g.len() - 1 - from_end] == inner[inner.len() - 1 - (from_end - 4)]);
        } else if from_end < 3 {
            assert(g[g.len() - 1 - from_end] == digits[digits.len() - 1 - from_end]);
            assert(is_digit(digits[digits.len() - 1 - from_end]));
        }
        assert(g[0] == inner[0]);
    }
}

/// A loss is written like the gain of the same size, with a minus sign before it.
pub proof fn law_loss_is_written_with_a_minus(amount: int)
    ensures
        amount > 0 ==> coins_text(-amount) == seq!['-'] + coins_text(amount),
        amount >= 0 ==> coins_text(amount) == grouped(decimal(amount as nat)),
{
}

} // verus!
