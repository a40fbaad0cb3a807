//! A greeter and a wrapping factorial, written so that a host can call them
//! and log around them.

pub mod call;
pub mod decimal;
pub mod factorial;
pub mod greeting;

pub use call::{Action, FactorialCall};
pub use factorial::factorial_rust;
pub use greeting::greet;
