use vstd::prelude::*;
use crate::text::{ascii_chars, decimal_digits, decimal_string};

verus! {

/// Current flashblock number (1-indexed).
#[derive(Debug, Clone, Copy, PartialEq, Eq, Structural)]
pub struct FlashblockNumber(u64);

impl FlashblockNumber {
    /// A flashblock number is never zero: numbering starts at one.
    #[verifier::type_invariant]
    closed spec fn is_one_based(self) -> bool {
        self.0 >= 1
    }

    /// The one-based number that this value holds.
    pub closed spec fn number(self) -> u64 {
        self.0
    }

    pub fn new() -> (r: Self)
        ensures
            r.number() == 1,
    {
        FlashblockNumber(1)
    }

    /// Returns current flashblock in 0-index format
    pub fn index(&self) -> (r: u64)
        ensures
            r == self.number() - 1,
    {
        proof {
            use_type_invariant(self);
        }
        self.0 - 1
    }

    pub fn current(&self) -> (r: u64)
        ensures
            r == self.number(),
            r >= 1,
    {
        proof {
            use_type_invariant(self);
        }
        self.0
    }

    pub fn advance(&self) -> (r: Self)
        requires
            self.number() < u64::MAX,
        ensures
            r.number() == self.number() + 1,
    {
        proof {
            use_type_invariant(self);
        }
        FlashblockNumber(self.0 + 1)
    }

    /// The number as decimal text, as it is displayed.
    pub fn to_string(&self) -> (r: String)
        ensures
            r@ == ascii_chars(decimal_digits(self.number() as nat)),
    {
        decimal_string(self.0)
    }
}

impl Default for FlashblockNumber {
    fn default() -> (r: Self)
        ensures
            r.number() == 1,
    {
        Self::new()
    }
}

/// Number of flashblocks we're targeting to build for this block.
#[derive(Debug)]
pub struct TargetFlashblocks(u64);

impl Default for TargetFlashblocks {
    fn default() -> (r: Self)
        ensures
            r.target() == 0,
    {
        Self::new()
    }
}

impl TargetFlashblocks {
    /// The target that this value holds.
    pub closed spec fn target(self) -> u64 {
        self.0
    }

    pub fn new() -> (r: Self)
        ensures
            r.target() == 0,
    {
        TargetFlashblocks(0)
    }

    pub fn get(&self) -> (r: u64)
        ensures
            r == self.target(),
    {
        self.0
    }

    pub fn set(&mut self, val: u64)
        ensures
            final(self).target() == val,
    {
        self.0 = val;
    }
}

} // verus!
