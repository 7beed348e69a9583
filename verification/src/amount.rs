//! Money amounts.
//!
//! The principal's limits and a task's budget are floating-point numbers
//! wherever the program reads or prints them. The library carries each such
//! number as the bits of its IEEE-754 encoding together with its decimal
//! rendering (`{}`), which is what the library prints; comparing amounts is
//! left to the program that reads them.

use vstd::prelude::*;

verus! {

/// A money amount: the IEEE-754 bits of a double and its `{}` rendering.
#[derive(Debug, Clone, PartialEq)]
pub struct Amount {
    pub bits: u64,
    pub text: String,
}

pub struct AmountView {
    pub bits: u64,
    pub text: Seq<char>,
}

impl View for Amount {
    type V = AmountView;

    open spec fn view(&self) -> AmountView {
        AmountView { bits: self.bits, text: self.text@ }
    }
}

impl Amount {
    /// A copy with the same contents.
    pub fn duplicate(&self) -> (r: Amount)
        ensures
            r@ == self@,
    {
        Amount { bits: self.bits, text: self.text.clone() }
    }
}

} // verus!
