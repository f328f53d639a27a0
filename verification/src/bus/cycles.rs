use vstd::prelude::*;

use crate::bus::{EWRAM_PAGE, PALETTE_PAGE, VRAM_PAGE};

verus! {

/// Number of pages in the access-time tables (address bits 27-24).
pub const CYCLE_LUT_SIZE: usize = 0xF;

/// Access times by page: non-sequential and sequential, 16- and 32-bit.
#[derive(Debug, Clone, Copy)]
pub struct CycleLUT {
    pub n16: [u8; 15],
    pub n32: [u8; 15],
    pub s16: [u8; 15],
    pub s32: [u8; 15],
}

impl CycleLUT {
    /// The access time of `page` in the default tables: one cycle, but
    /// EWRAM takes 3 cycles per half-word and 6 per word, and palette RAM
    /// and VRAM 2 cycles per word.
    pub open spec fn default_cycles(page: int, word: bool) -> u8 {
        if page == EWRAM_PAGE as int {
            if word {
                6
            } else {
                3
            }
        } else if word && (page == PALETTE_PAGE as int || page == VRAM_PAGE as int) {
            2
        } else {
            1
        }
    }
}

impl CycleLUT {
    /// All four tables hold the default access times.
    pub open spec fn is_default(self) -> bool {
        forall|p: int|
            0 <= p < 15 ==> {
                &&& #[trigger] self.n16[p] == CycleLUT::default_cycles(p, false)
                &&& self.s16[p] == CycleLUT::default_cycles(p, false)
                &&& self.n32[p] == CycleLUT::default_cycles(p, true)
                &&& self.s32[p] == CycleLUT::default_cycles(p, true)
            }
    }
}

impl Default for CycleLUT {
    fn default() -> (r: CycleLUT)
        ensures
            r.is_default(),
    {
        let mut n16 = [1u8; 15];
        let mut n32 = [1u8; 15];
        let mut s16 = [1u8; 15];
        let mut s32 = [1u8; 15];
        n16[EWRAM_PAGE] = 3;
        s16[EWRAM_PAGE] = 3;
        n32[EWRAM_PAGE] = 6;
        s32[EWRAM_PAGE] = 6;
        n32[PALETTE_PAGE] = 2;
        s32[PALETTE_PAGE] = 2;
        n32[VRAM_PAGE] = 2;
        s32[VRAM_PAGE] = 2;
        CycleLUT { n16, n32, s16, s32 }
    }
}

} // verus!
