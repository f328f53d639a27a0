pub use crate::arm7tdmi::common::{DataType, MemoryAccess};

use vstd::prelude::*;

verus! {

/// Bus width and wait states of a memory region.
#[derive(Debug, Clone, Copy, PartialEq, Eq, Structural)]
pub struct MemoryRegionData {
    pub width: DataType,
    pub waitstate: WaitState,
}

/// Extra cycles of a non-sequential and of a sequential access.
#[derive(Debug, Clone, Copy, PartialEq, Eq, Structural)]
pub struct WaitState {
    pub n: u8,
    pub s: u8,
}

impl Default for WaitState {
    fn default() -> (r: WaitState)
        ensures
            r == (WaitState { n: 0, s: 0 }),
    {
        WaitState { n: 0, s: 0 }
    }
}

/// A number of bus cycles.
#[derive(Debug, Clone, Copy, PartialEq, Eq, Structural)]
pub struct Cycle(pub u32);

impl Default for Cycle {
    fn default() -> (r: Cycle)
        ensures
            r == Cycle(0),
    {
        Cycle(0)
    }
}

impl Cycle {
    /// `i` internal cycles, `s` sequential and `n` non-sequential accesses,
    /// each access paying the wait states of `ws`.
    pub fn new(i: u8, s: u8, n: u8, ws: WaitState) -> (r: Cycle)
        ensures
            r.0 == i + ws.s * s + s + ws.n * n + n,
    {
        proof {
            assert(ws.s * s <= 255 * 255) by (nonlinear_arith)
                requires
                    ws.s <= 255,
                    s <= 255,
            ;
            assert(ws.n * n <= 255 * 255) by (nonlinear_arith)
                requires
                    ws.n <= 255,
                    n <= 255,
            ;
        }
        Cycle(i as u32 + ws.s as u32 * s as u32 + s as u32 + ws.n as u32 * n as u32 + n as u32)
    }

    /// `n` internal cycles.
    pub fn internal(n: u8) -> (r: Cycle)
        ensures
            r.0 == n,
    {
        Cycle(n as u32)
    }

    /// The cycles taken `n` times.
    pub fn repeat(self, n: u32) -> (r: Cycle)
        requires
            self.0 * n <= u32::MAX,
        ensures
            r.0 == self.0 * n,
    {
        Cycle(self.0 * n)
    }

    /// Number of cycles.
    pub fn count(self) -> (r: u32)
        ensures
            r == self.0,
    {
        self.0
    }

    /// Sum of two cycle counts.
    pub fn add(self, rhs: Cycle) -> (r: Cycle)
        requires
            self.0 + rhs.0 <= u32::MAX,
        ensures
            r.0 == self.0 + rhs.0,
    {
        Cycle(self.0 + rhs.0)
    }
}

/// Whether `address` lies in the Game Pak area (ROM and SRAM, 0x0800_0000-0x0FFF_FFFF).
pub open spec fn spec_is_gamepak(address: u32) -> bool {
    0x0800_0000 <= address <= 0x0FFF_FFFF
}

/// Whether `address` lies in the Game Pak area (ROM and SRAM).
pub fn is_gamepak(address: u32) -> (r: bool)
    ensures
        r == spec_is_gamepak(address),
{
    0x0800_0000 <= address && address <= 0x0FFF_FFFF
}

} // verus!
