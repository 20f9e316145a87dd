//! Ids that tell the requests of one process apart.

use crate::util::{digit_text, is_decimal_digit};
use vstd::prelude::*;
use vstd::string::*;

verus! {

/// The id of the first request. The values below it are kept for other uses.
pub const FIRST_REQUEST_ID: u32 = 2;

/// How many values the counter has.
pub open spec fn counter_range() -> nat {
    0x1_0000_0000
}

/// The digit that stands for `value`, for `value < 10`.
pub open spec fn decimal_digit(value: nat) -> char {
    (value + 48) as char
}

/// The decimal numeral of `n`: no sign, no leading zero but for `0` itself.
pub open spec fn decimal_digits(n: nat) -> Seq<char>
    decreases n,
{
    if n < 10 {
        seq![decimal_digit(n)]
    } else {
        decimal_digits(n / 10).push(decimal_digit(n % 10))
    }
}

/// The number that a text of decimal digits spells.
pub open spec fn decimal_value(digits: Seq<char>) -> nat
    decreases digits.len(),
{
    if digits.len() == 0 {
        0
    } else {
        (10 * decimal_value(digits.drop_last()) + (digits.last() as int - 48)) as nat
    }
}

/// The counter that follows `counter`: one more, and zero after the last.
pub open spec fn next_counter(counter: nat) -> nat {
    (counter + 1) % counter_range()
}

/// The counter after `calls` ids were taken from a generator whose counter
/// stood at `first`. The id that the next call hands out is the numeral of
/// this counter.
pub open spec fn counter_after(first: nat, calls: nat) -> nat
    decreases calls,
{
    if calls == 0 {
        first
    } else {
        next_counter(counter_after(first, (calls - 1) as nat))
    }
}

/// Writes `n` as a decimal numeral.
pub fn to_decimal(n: u32) -> (digits: String)
    ensures
        digits@ == decimal_digits(n as nat),
    decreases n,
{
    if n < 10 {
        digit_text(n as u8).to_string()
    } else {
        let mut digits = to_decimal(n / 10);
        digits.append(digit_text((n % 10) as u8));
        digits
    }
}

/// Source of request ids: a counter that hands out its value as a numeral
/// and moves on by one.
///
/// Taking an id needs the generator exclusively, so no two callers can be
/// given the same counter value, however many share the generator behind a
/// lock.
#[derive(Debug)]
pub struct RequestIdGenerator {
    next: u32,
}

impl View for RequestIdGenerator {
    type V = nat;

    /// The counter: the number that the next id will spell.
    closed spec fn view(&self) -> nat {
        self.next as nat
    }
}

impl RequestIdGenerator {
    /// A generator whose first id is [`FIRST_REQUEST_ID`].
    pub fn new() -> (ids: RequestIdGenerator)
        ensures
            ids@ == FIRST_REQUEST_ID,
    {
        RequestIdGenerator { next: FIRST_REQUEST_ID }
    }

    /// The counter never leaves its range.
    pub proof fn lemma_counter_in_range(&self)
        ensures
            self@ < counter_range(),
    {
    }

    /// Hands out the counter as a decimal numeral and advances it by one.
    /// After the largest value the counter starts again at zero.
    pub fn next_id(&mut self) -> (id: String)
        ensures
            id@ == decimal_digits(old(self)@),
            final(self)@ == next_counter(old(self)@),
    {
        let current = self.next;
        self.next = if current == u32::MAX {
            0
        } else {
            current + 1
        };
        to_decimal(current)
    }
}

/// A numeral is made of decimal digits, at least one.
pub proof fn lemma_decimal_digits_are_digits(n: nat)
    ensures
        decimal_digits(n).len() >= 1,
        forall|i: int|
            0 <= i < decimal_digits(n).len() ==> is_decimal_digit(#[trigger] decimal_digits(n)[i]),
    decreases n,
{
    if n >= 10 {
        lemma_decimal_digits_are_digits(n / 10);
    }
}

/// A numeral spells the number it was written for, so different numbers
/// have different numerals.
pub proof fn lemma_decimal_value_of_digits(n: nat)
    ensures
        decimal_value(decimal_digits(n)) == n,
    decreases n,
{
    if n < 10 {
        let digits = decimal_digits(n);
        assert(digits.drop_last() =~= Seq::<char>::empty());
        assert(decimal_value(digits.drop_last()) == 0);
    } else {
        let digits = decimal_digits(n);
        lemma_decimal_value_of_digits(n / 10);
        assert(digits.drop_last() =~= decimal_digits(n / 10));
    }
}

/// The counter after some calls is the first counter plus the number of
/// calls, taken within the counter's range.
pub proof fn lemma_counter_after(first: nat, calls: nat)
    requires
        first < counter_range(),
    ensures
        counter_after(first, calls) == (first + calls) % counter_range(),
        counter_after(first, calls) < counter_range(),
    decreases calls,
{
    if calls > 0 {
        lemma_counter_after(first, (calls - 1) as nat);
    }
}

/// Ids taken one after another from one generator are pairwise distinct, as
/// long as fewer calls lie between two of them than the counter has values.
pub proof fn lemma_ids_distinct(first: nat, earlier: nat, later: nat)
    requires
        first < counter_range(),
        earlier < later,
        later - earlier < counter_range(),
    ensures
        decimal_digits(counter_after(first, earlier)) != decimal_digits(
            counter_after(first, later),
        ),
{
    lemma_counter_after(first, earlier);
    lemma_counter_after(first, later);
    let a = counter_after(first, earlier);
    let b = counter_after(first, later);
    assert(a != b) by {
        let range: int = counter_range() as int;
        let x: int = (first + earlier) as int;
        let y: int = (first + later) as int;
        if x % range == y % range {
            assert(x == range * (x / range) + x % range) by (nonlinear_arith)
                requires
                    range > 0,
            ;
            assert(y == range * (y / range) + y % range) by (nonlinear_arith)
                requires
                    range > 0,
            ;
            assert(y - x == range * (y / range - x / range)) by (nonlinear_arith)
                requires
                    x == range * (x / range) + x % range,
                    y == range * (y / range) + y % range,
                    x % range == y % range,
            ;
            let q: int = y / range - x / range;
            assert(false) by (nonlinear_arith)
                requires
                    0 < y - x < range,
                    y - x == range * q,
            ;
        }
    }
    lemma_decimal_value_of_digits(a);
    lemma_decimal_value_of_digits(b);
}

/// Until the counter starts again at zero, each id spells a larger number
/// than every id taken before it.
pub proof fn lemma_ids_increasing(first: nat, earlier: nat, later: nat)
    requires
        earlier < later,
        first + later < counter_range(),
    ensures
        decimal_value(decimal_digits(counter_after(first, earlier))) < decimal_value(
            decimal_digits(counter_after(first, later)),
        ),
{
    lemma_counter_after(first, earlier);
    lemma_counter_after(first, later);
    lemma_decimal_value_of_digits(counter_after(first, earlier));
    lemma_decimal_value_of_digits(counter_after(first, later));
}

} // verus!
