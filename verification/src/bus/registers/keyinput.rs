use vstd::prelude::*;

verus! {

/// Key status register: a clear bit is a pressed key.
#[derive(Debug, Clone, Copy, PartialEq, Eq, Structural)]
pub struct KeyInput {
    pub value: u16,
}

impl Default for KeyInput {
    fn default() -> (r: KeyInput)
        ensures
            r.value == 0,
    {
        KeyInput { value: 0 }
    }
}

/// Keys, in the order of their bits in the key registers.
#[derive(Debug, Clone, Copy, PartialEq, Eq, Structural)]
pub enum Key {
    ButtonA,
    ButtonB,
    Select,
    Start,
    Right,
    Left,
    Up,
    Down,
    ButtonR,
    ButtonL,
}

} // verus!
