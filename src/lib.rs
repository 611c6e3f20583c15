//! Verified core of a bench fixture that tests two-input AND and OR gate chips.
//!
//! The library holds the selection state that the button interrupt mutates, the
//! procedure that drives a gate socket through its four input combinations, and
//! the rules that turn observed truth tables into pass/fail indicators.

pub mod truth_table;
pub mod selector;
pub mod probe;
pub mod channel;
pub mod bench;
