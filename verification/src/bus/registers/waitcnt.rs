use vstd::prelude::*;

verus! {

/// Game Pak wait state control register.
#[derive(Debug, Clone, Copy, PartialEq, Eq, Structural)]
pub struct Waitcnt {
    pub value: u16,
}

impl Default for Waitcnt {
    fn default() -> (r: Waitcnt)
        ensures
            r.value == 0,
    {
        Waitcnt { value: 0 }
    }
}

} // verus!
