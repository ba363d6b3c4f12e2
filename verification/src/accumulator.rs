//! The calculator: one stored number, replaced by every operation.

use vstd::prelude::*;
use crate::binary64::{denotes_nan, denotes_negative, denotes_zero, is_negative, is_zero, NOT_A_NUMBER, POSITIVE_ZERO};

verus! {

/// Why an operation was refused.
#[derive(Clone, Copy, Debug, PartialEq, Eq)]
pub enum Fault {
    /// A division whose divisor is zero.
    DivisionByZero,
    /// A square root of a number below zero.
    NegativeSquareRoot,
}

/// What an operation that can be refused leaves behind: the number now stored,
/// and the fault to report, if there was one.
#[derive(Clone, Copy, Debug, PartialEq, Eq)]
pub struct Outcome {
    pub value: u64,
    pub fault: Option<Fault>,
}

/// What a division leaves behind, given the divisor and the quotient that the
/// caller computed: not-a-number and a fault for a zero divisor, else the quotient.
pub open spec fn division_outcome(divisor: u64, quotient: u64) -> Outcome {
    if denotes_zero(divisor) {
        Outcome { value: NOT_A_NUMBER, fault: Some(Fault::DivisionByZero) }
    } else {
        Outcome { value: quotient, fault: None }
    }
}

/// What a square root leaves behind, given the operand and the root that the
/// caller computed: not-a-number and a fault for an operand below zero, else the root.
pub open spec fn square_root_outcome(operand: u64, root: u64) -> Outcome {
    if denotes_negative(operand) {
        Outcome { value: NOT_A_NUMBER, fault: Some(Fault::NegativeSquareRoot) }
    } else {
        Outcome { value: root, fault: None }
    }
}

/// A calculator. It holds the bit pattern of the last result.
pub struct Calculator {
    value: u64,
}

impl View for Calculator {
    type V = u64;

    /// The stored bit pattern.
    closed spec fn view(&self) -> u64 {
        self.value
    }
}

impl Calculator {
    /// A new calculator, which holds positive zero.
    pub fn new() -> (calculator: Calculator)
        ensures
            calculator@ == POSITIVE_ZERO,
    {
        Calculator { value: POSITIVE_ZERO }
    }

    /// The stored number.
    pub fn value(&self) -> (value: u64)
        ensures
            value == self@,
    {
        self.value
    }

    /// Stores the result of an operation that is never refused, and returns it.
    pub fn record(&mut self, result: u64) -> (value: u64)
        ensures
            value == result,
            final(self)@ == result,
    {
        self.value = result;
        result
    }

    /// Division. `quotient` is the dividend over `divisor`, as the caller computed
    /// it. A zero divisor, of either sign, is refused: not-a-number is stored in
    /// place of the quotient.
    pub fn divide(&mut self, divisor: u64, quotient: u64) -> (outcome: Outcome)
        ensures
            outcome == division_outcome(divisor, quotient),
            final(self)@ == outcome.value,
            denotes_zero(divisor) ==> denotes_nan(outcome.value),
    {
        let outcome = if is_zero(divisor) {
            Outcome { value: NOT_A_NUMBER, fault: Some(Fault::DivisionByZero) }
        } else {
            Outcome { value: quotient, fault: None }
        };
        self.value = outcome.value;
        outcome
    }

    /// Square root. `root` is the square root of `operand`, as the caller computed
    /// it. An operand below zero is refused: not-a-number is stored in place of
    /// the root. Negative zero and not-a-number are not below zero.
    pub fn sqrt(&mut self, operand: u64, root: u64) -> (outcome: Outcome)
        ensures
            outcome == square_root_outcome(operand, root),
            final(self)@ == outcome.value,
            denotes_negative(operand) ==> denotes_nan(outcome.value),
    {
        let outcome = if is_negative(operand) {
            Outcome { value: NOT_A_NUMBER, fault: Some(Fault::NegativeSquareRoot) }
        } else {
            Outcome { value: root, fault: None }
        };
        self.value = outcome.value;
        outcome
    }

    /// Resets the stored number to positive zero.
    pub fn clear(&mut self)
        ensures
            final(self)@ == POSITIVE_ZERO,
    {
        self.value = POSITIVE_ZERO;
    }
}

} // verus!
