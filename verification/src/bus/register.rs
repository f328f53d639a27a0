use vstd::prelude::*;

use crate::bus::memory::Bus;
use crate::bus::types::MemoryAccess;
use crate::utils::bits::{field, get_bits16};

verus! {

/// System control registers: interrupt enable, interrupt request flags,
/// Game Pak wait state control and interrupt master enable.
#[derive(Debug, Clone, Copy, PartialEq, Eq, Structural)]
pub struct SystemControl {
    /// 0x200
    pub ie: u16,
    /// 0x202
    pub irf: u16,
    /// 0x204
    pub waitcnt: u16,
    /// 0x208
    pub ime: u16,
}

impl Default for SystemControl {
    fn default() -> (r: SystemControl)
        ensures
            r == (SystemControl { ie: 0, irf: 0, waitcnt: 0, ime: 0 }),
    {
        SystemControl { ie: 0, irf: 0, waitcnt: 0, ime: 0 }
    }
}

/// Whether `address` falls on one of the system control registers.
pub open spec fn is_system_control(address: usize) -> bool {
    let o = address % 0x0400_0000;
    (0x200 <= o <= 0x205) || (0x208 <= o <= 0x209)
}

/// Whether `address` lies in a Game Pak region with a wait state setting:
/// the three ROM wait state regions or the first 64 KiB of SRAM.
pub open spec fn has_waitstate(address: usize) -> bool {
    (0x0800_0000 <= address <= 0x0DFF_FFFF) || (0x0E00_0000 <= address <= 0x0E00_FFFF)
}

impl SystemControl {
    /// The register that `address` falls on.
    pub open spec fn spec_register(self, address: usize) -> u16 {
        let o = address % 0x0400_0000;
        if o <= 0x201 {
            self.ie
        } else if o <= 0x203 {
            self.irf
        } else if o <= 0x205 {
            self.waitcnt
        } else {
            self.ime
        }
    }

    /// The wait state control bits of the region of `address`.
    pub open spec fn spec_control(self, address: usize) -> u32 {
        if address <= 0x09FF_FFFF {
            field(self.waitcnt as u32, 2, 0x7)
        } else if address <= 0x0BFF_FFFF {
            field(self.waitcnt as u32, 5, 0x7)
        } else if address <= 0x0DFF_FFFF {
            field(self.waitcnt as u32, 8, 0x7)
        } else {
            field(self.waitcnt as u32, 0, 0x3)
        }
    }

    /// Wait states of an access at `address`: non-sequential 4, 3, 2 or 8
    /// by the control bits; sequential 2, 4 or 8 in the three ROM regions
    /// and 1 in SRAM.
    pub open spec fn spec_waitstate(self, address: usize, access: MemoryAccess) -> u8 {
        let c = self.spec_control(address);
        match access {
            MemoryAccess::NonSequential => if c == 0 {
                4
            } else if c == 1 {
                3
            } else if c == 2 {
                2
            } else {
                8
            },
            MemoryAccess::Sequential => if address <= 0x09FF_FFFF {
                2
            } else if address <= 0x0BFF_FFFF {
                4
            } else if address <= 0x0DFF_FFFF {
                8
            } else {
                1
            },
        }
    }

    /// Reads a byte of the register at `address`.
    pub fn read(&self, address: usize) -> (r: u8)
        requires
            is_system_control(address),
        ensures
            r == <u16 as Bus>::spec_read_byte(self.spec_register(address), (address % 2) as u32),
    {
        let o = address % 0x0400_0000;
        let a = (address % 2) as u32;
        if o <= 0x201 {
            self.ie.read_byte(a)
        } else if o <= 0x203 {
            self.irf.read_byte(a)
        } else if o <= 0x205 {
            self.waitcnt.read_byte(a)
        } else {
            self.ime.read_byte(a)
        }
    }

    /// Writes a byte of the register at `address`.
    pub fn write(&mut self, address: usize, value: u8)
        requires
            is_system_control(address),
        ensures
            final(self).spec_register(address) == <u16 as Bus>::spec_write_byte(
                old(self).spec_register(address),
                (address % 2) as u32,
                value,
            ),
            forall|b: usize|
                is_system_control(b) && (b % 0x0400_0000) / 2 != (address % 0x0400_0000) / 2
                    ==> #[trigger] final(self).spec_register(b) == old(self).spec_register(b),
    {
        let o = address % 0x0400_0000;
        let a = (address % 2) as u32;
        if o <= 0x201 {
            self.ie.write_byte(a, value);
        } else if o <= 0x203 {
            self.irf.write_byte(a, value);
        } else if o <= 0x205 {
            self.waitcnt.write_byte(a, value);
        } else {
            self.ime.write_byte(a, value);
        }
    }

    /// Wait states of an access at `address` (see `spec_waitstate`); the
    /// control bits must name one of the four settings.
    pub fn get_waitstate(&self, address: usize, access: MemoryAccess) -> (r: u8)
        requires
            has_waitstate(address),
            self.spec_control(address) <= 3,
        ensures
            r == self.spec_waitstate(address, access),
    {
        let control_value = if address <= 0x09FF_FFFF {
            get_bits16(self.waitcnt, 2, 0x7)
        } else if address <= 0x0BFF_FFFF {
            get_bits16(self.waitcnt, 5, 0x7)
        } else if address <= 0x0DFF_FFFF {
            get_bits16(self.waitcnt, 8, 0x7)
        } else {
            get_bits16(self.waitcnt, 0, 0x3)
        };
        match access {
            MemoryAccess::NonSequential => {
                if control_value == 0 {
                    4
                } else if control_value == 1 {
                    3
                } else if control_value == 2 {
                    2
                } else {
                    8
                }
            },
            MemoryAccess::Sequential => {
                if address <= 0x09FF_FFFF {
                    2
                } else if address <= 0x0BFF_FFFF {
                    4
                } else if address <= 0x0DFF_FFFF {
                    8
                } else {
                    1
                }
            },
        }
    }
}

} // verus!
