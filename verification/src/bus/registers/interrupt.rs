use vstd::prelude::*;

verus! {

/// Interrupt sources, in the order of their bits in IE and IF.
#[derive(Debug, Clone, Copy, PartialEq, Eq, Structural)]
pub enum InterruptFlag {
    Vblank,
    Hblank,
    VCountMatch,
    Timer0,
    Timer1,
    Timer2,
    Timer3,
    Serial,
    Dma0,
    Dma1,
    Dma2,
    Dma3,
    Keypad,
    Gamepak,
}

impl InterruptFlag {
    pub open spec fn spec_bit(self) -> u32 {
        match self {
            InterruptFlag::Vblank => 0,
            InterruptFlag::Hblank => 1,
            InterruptFlag::VCountMatch => 2,
            InterruptFlag::Timer0 => 3,
            InterruptFlag::Timer1 => 4,
            InterruptFlag::Timer2 => 5,
            InterruptFlag::Timer3 => 6,
            InterruptFlag::Serial => 7,
            InterruptFlag::Dma0 => 8,
            InterruptFlag::Dma1 => 9,
            InterruptFlag::Dma2 => 10,
            InterruptFlag::Dma3 => 11,
            InterruptFlag::Keypad => 12,
            InterruptFlag::Gamepak => 13,
        }
    }

    /// The bit of the interrupt in the IE and IF registers.
    pub fn bit(self) -> (r: u32)
        ensures
            r == self.spec_bit(),
            r < 14,
    {
        match self {
            InterruptFlag::Vblank => 0,
            InterruptFlag::Hblank => 1,
            InterruptFlag::VCountMatch => 2,
            InterruptFlag::Timer0 => 3,
            InterruptFlag::Timer1 => 4,
            InterruptFlag::Timer2 => 5,
            InterruptFlag::Timer3 => 6,
            InterruptFlag::Serial => 7,
            InterruptFlag::Dma0 => 8,
            InterruptFlag::Dma1 => 9,
            InterruptFlag::Dma2 => 10,
            InterruptFlag::Dma3 => 11,
            InterruptFlag::Keypad => 12,
            InterruptFlag::Gamepak => 13,
        }
    }
}

} // verus!
