//! A factorial call as the host sees it: two debug lines around the product.
//!
//! The library does not log by itself. A call is a small state machine that
//! tells its driver what to do next: write a line to the debug log, or hand
//! the value back. The driver performs each action and asks for the next one.

use crate::decimal::{decimal, decimal_string};
use crate::factorial::{factorial_rust, wrapped_product};
use vstd::prelude::*;
use vstd::string::StringExecFns;

verus! {

/// The line that is logged before the product is computed.
pub open spec fn input_line(n: u64) -> Seq<char> {
    "Input number to factorial : "@ + decimal(n as nat)
}

/// The line that is logged once `value` has been computed.
pub open spec fn result_line(value: u64) -> Seq<char> {
    "Factorial of input number: "@ + decimal(value as nat)
}

/// Formats the line that announces the input `n`.
pub fn input_message(n: u64) -> (line: String)
    ensures
        line@ == input_line(n),
{
    let digits = decimal_string(n);
    String::from_str("Input number to factorial : ").concat(digits.as_str())
}

/// Formats the line that reports the result `value`.
pub fn result_message(value: u64) -> (line: String)
    ensures
        line@ == result_line(value),
{
    let digits = decimal_string(value);
    String::from_str("Factorial of input number: ").concat(digits.as_str())
}

/// What the driver of a call has to do next.
#[derive(Debug, PartialEq, Eq)]
pub enum Action {
    /// Write this line to the debug log, then step again.
    Debug(String),
    /// The call is over: this is its value.
    Return(u64),
}

/// An `Action` with its line as a sequence of characters.
pub enum ActionView {
    Debug(Seq<char>),
    Return(u64),
}

impl View for Action {
    type V = ActionView;

    open spec fn view(&self) -> ActionView {
        match self {
            Action::Debug(line) => ActionView::Debug(line@),
            Action::Return(value) => ActionView::Return(*value),
        }
    }
}

/// How far a factorial call has come.
#[derive(Clone, Copy, Debug, PartialEq, Eq, Structural)]
pub enum FactorialCall {
    /// Nothing has been logged and nothing computed.
    Started { n: u64 },
    /// The input has been logged. The product is still to be computed.
    Announced { n: u64 },
    /// The product has been computed and logged.
    Reported { value: u64 },
}

impl FactorialCall {
    /// The state that follows `self`. `Reported` is final: it follows itself.
    pub open spec fn next(self) -> FactorialCall {
        match self {
            FactorialCall::Started { n } => FactorialCall::Announced { n },
            FactorialCall::Announced { n } => FactorialCall::Reported { value: wrapped_product(n) },
            FactorialCall::Reported { value } => FactorialCall::Reported { value },
        }
    }

    /// What a step from `self` asks of the driver.
    pub open spec fn action(self) -> ActionView {
        match self {
            FactorialCall::Started { n } => ActionView::Debug(input_line(n)),
            FactorialCall::Announced { n } => ActionView::Debug(result_line(wrapped_product(n))),
            FactorialCall::Reported { value } => ActionView::Return(value),
        }
    }

    /// The state after `steps` steps from `self`.
    pub open spec fn after(self, steps: nat) -> FactorialCall
        decreases steps,
    {
        if steps == 0 {
            self
        } else {
            self.after((steps - 1) as nat).next()
        }
    }

    /// The lines that the first `steps` steps from `self` ask to log, in the
    /// order in which they are asked for.
    pub open spec fn logged(self, steps: nat) -> Seq<Seq<char>>
        decreases steps,
    {
        if steps == 0 {
            Seq::empty()
        } else {
            let earlier = self.logged((steps - 1) as nat);
            match self.after((steps - 1) as nat).action() {
                ActionView::Debug(line) => earlier.push(line),
                ActionView::Return(_) => earlier,
            }
        }
    }

    /// A call on `n` of which nothing has happened yet.
    pub fn start(n: u64) -> (call: FactorialCall)
        ensures
            call == (FactorialCall::Started { n }),
    {
        FactorialCall::Started { n }
    }

    /// Takes one step: returns the state that follows and the action that the
    /// driver has to perform before it steps again.
    ///
    /// The product is computed in the step from `Announced`, and in no other.
    pub fn step(self) -> (out: (FactorialCall, Action))
        ensures
            out.0 == self.next(),
            out.1@ == self.action(),
    {
        match self {
            FactorialCall::Started { n } => {
                (FactorialCall::Announced { n }, Action::Debug(input_message(n)))
            },
            FactorialCall::Announced { n } => {
                let value = factorial_rust(n);
                (FactorialCall::Reported { value }, Action::Debug(result_message(value)))
            },
            FactorialCall::Reported { value } => {
                (FactorialCall::Reported { value }, Action::Return(value))
            },
        }
    }
}

/// Every call logs exactly twice, once on each side of the computation.
///
/// The first step of a call on `n` asks for the input line and leaves the call
/// in the state `Announced`, which holds the input and no product yet. The
/// second step computes the product and asks for the line that reports it.
/// From then on, however many steps are taken, nothing more is logged: the
/// call is in the state `Reported` and only hands the product back.
pub proof fn lemma_two_lines_around_the_product(n: u64, steps: nat)
    ensures
        (FactorialCall::Started { n }).logged(1) == seq![input_line(n)],
        (FactorialCall::Started { n }).after(1) == (FactorialCall::Announced { n }),
        steps >= 2 ==> (FactorialCall::Started { n }).logged(steps) == seq![
            input_line(n),
            result_line(wrapped_product(n)),
        ],
        steps >= 2 ==> (FactorialCall::Started { n }).after(steps) == (FactorialCall::Reported {
            value: wrapped_product(n),
        }),
        steps >= 2 ==> (FactorialCall::Started { n }).after(steps).action() == ActionView::Return(
            wrapped_product(n),
        ),
    decreases steps,
{
    reveal_with_fuel(FactorialCall::after, 3);
    reveal_with_fuel(FactorialCall::logged, 3);
    if steps > 2 {
        lemma_two_lines_around_the_product(n, (steps - 1) as nat);
    }
}

} // verus!
