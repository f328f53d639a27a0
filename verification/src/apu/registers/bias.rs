use vstd::prelude::*;

verus! {

/// Sound bias register.
#[derive(Debug, Clone, Copy, PartialEq, Eq, Structural)]
pub struct Bias {
    pub value: u16,
}

impl Default for Bias {
    /// The bias level at reset, 0x200.
    fn default() -> (r: Bias)
        ensures
            r.value == 0x200,
    {
        Bias { value: 0x200 }
    }
}

} // verus!
