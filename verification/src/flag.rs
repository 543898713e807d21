use vstd::prelude::*;

verus! {

/// The four status bits of the machine.
#[derive(Debug, Clone, Copy, PartialEq, Eq, Structural)]
pub struct Flag {
    pub zero: bool,
    pub negative: bool,
    pub overflow: bool,
    pub carry: bool,
}

impl Flag {
    /// All four bits cleared: the state at reset.
    pub fn new() -> (flag: Self)
        ensures
            flag == (Flag { zero: false, negative: false, overflow: false, carry: false }),
    {
        Self { zero: false, negative: false, overflow: false, carry: false }
    }
}

} // verus!
