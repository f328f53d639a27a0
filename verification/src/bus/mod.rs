pub mod cycles;
pub mod debug;
pub mod memory;
pub mod properties;
pub mod register;
pub mod registers;
pub mod types;

use vstd::prelude::*;

use crate::apu::Apu;
use crate::bus::cycles::CycleLUT;
use crate::bus::memory::{Bus, read_hword, read_word, spec_read_hword, spec_read_word, spec_write_hword, spec_write_word, write_hword, write_word};
use crate::bus::registers::IORegister;
use crate::bus::registers::dma::{Dma, DmaAddressControl, DmaData, DmaResult, DmaSpecialTiming, DmaStartTiming, DmaTimer};
use crate::bus::registers::interrupt::InterruptFlag;
use crate::bus::types::{Cycle, DataType, MemoryAccess, is_gamepak, spec_is_gamepak};
use crate::utils::bits::with_bit;

verus! {

pub const BIOS_PAGE: usize = 0x00;
pub const EWRAM_PAGE: usize = 0x02;
pub const IWRAM_PAGE: usize = 0x03;
pub const IOREG_PAGE: usize = 0x04;
pub const PALETTE_PAGE: usize = 0x05;
pub const VRAM_PAGE: usize = 0x06;
pub const OAM_PAGE: usize = 0x07;
pub const WS0_PAGE: usize = 0x08;
pub const WS1_PAGE: usize = 0x0A;
pub const WS2_PAGE: usize = 0x0C;
pub const SRAM_PAGE: usize = 0x0E;

/// 16 KiB
pub const BIOS_SIZE: usize = 0x04000;
/// 32 KiB
pub const IWRAM_SIZE: usize = 0x08000;
/// 256 KiB
pub const EWRAM_SIZE: usize = 0x40000;
/// 64 KiB
pub const SRAM_SIZE: usize = 0x10000;
pub const IOREG_SIZE: usize = 0x210;
/// 1 KiB
pub const PALETTE_SIZE: usize = 0x400;
/// 1 KiB
pub const OAM_SIZE: usize = 0x400;

/// The GBA system bus: BIOS, on-board and on-chip work RAM, palette RAM,
/// object attribute memory, the cartridge ROM and SRAM, the I/O registers,
/// the sound unit, the access-time tables and the cycle counter of timed
/// accesses.
pub struct GbaBus {
    pub bios: Vec<u8>,
    pub iwram: Vec<u8>,
    pub ewram: Vec<u8>,
    pub rom: Vec<u8>,
    pub sram: Vec<u8>,
    pub palette: Vec<u8>,
    pub oam: Vec<u8>,
    pub io: IORegister,
    pub apu: Apu,
    pub cycles_lut: CycleLUT,
    pub divider: u32,
}

/// Mathematical model of the bus.
pub struct GbaBusView {
    pub bios: Seq<u8>,
    pub iwram: Seq<u8>,
    pub ewram: Seq<u8>,
    pub rom: Seq<u8>,
    pub sram: Seq<u8>,
    pub palette: Seq<u8>,
    pub oam: Seq<u8>,
    pub io: IORegister,
    pub apu: Apu,
    pub cycles_lut: CycleLUT,
    pub divider: u32,
}

impl View for GbaBus {
    type V = GbaBusView;

    open spec fn view(&self) -> GbaBusView {
        GbaBusView {
            bios: self.bios@,
            iwram: self.iwram@,
            ewram: self.ewram@,
            rom: self.rom@,
            sram: self.sram@,
            palette: self.palette@,
            oam: self.oam@,
            io: self.io,
            apu: self.apu,
            cycles_lut: self.cycles_lut,
            divider: self.divider,
        }
    }
}

/// Byte `i` of a memory, 0 past its end.
pub open spec fn mem_byte(m: Seq<u8>, i: int) -> u8 {
    if 0 <= i < m.len() {
        m[i]
    } else {
        0
    }
}

/// A memory with byte `i` set to `v`, unchanged past its end.
pub open spec fn mem_write(m: Seq<u8>, i: int, v: u8) -> Seq<u8> {
    if 0 <= i < m.len() {
        m.update(i, v)
    } else {
        m
    }
}

fn get_byte(m: &Vec<u8>, i: usize) -> (r: u8)
    ensures
        r == mem_byte(m@, i as int),
{
    if i < m.len() {
        m[i]
    } else {
        0
    }
}

fn set_byte(m: &mut Vec<u8>, i: usize, v: u8)
    ensures
        final(m)@ == mem_write(old(m)@, i as int, v),
{
    if i < m.len() {
        m.set(i, v);
    }
}

impl GbaBusView {
    /// The memories have their sizes.
    pub open spec fn wf(self) -> bool {
        &&& self.bios.len() == BIOS_SIZE
        &&& self.iwram.len() == IWRAM_SIZE
        &&& self.ewram.len() == EWRAM_SIZE
        &&& self.sram.len() == SRAM_SIZE
        &&& self.palette.len() == PALETTE_SIZE
        &&& self.oam.len() == OAM_SIZE
    }
}

impl Bus for GbaBus {
    /// The memory map: BIOS at 0, EWRAM mirrored over 0x02xx_xxxx, IWRAM
    /// over 0x03xx_xxxx, the sound registers at 0x0400_0060-0x0400_00AF and
    /// the other I/O registers above, palette RAM over 0x05xx_xxxx and
    /// object attribute memory over 0x07xx_xxxx (1 KiB each, mirrored), the
    /// ROM over 0x08xx_xxxx-0x0Dxx_xxxx (32 MiB mirrored, 0 past its end) and
    /// SRAM over 0x0Exx_xxxx-0x0Fxx_xxxx. The display registers below
    /// 0x0400_0060, video RAM and unmapped addresses read 0.
    open spec fn spec_read_byte(v: GbaBusView, address: u32) -> u8 {
        if address <= 0x0000_3FFF {
            mem_byte(v.bios, address as int)
        } else if 0x0200_0000 <= address <= 0x02FF_FFFF {
            mem_byte(v.ewram, (address & 0x3FFFF) as int)
        } else if 0x0300_0000 <= address <= 0x03FF_FFFF {
            mem_byte(v.iwram, (address & 0x7FFF) as int)
        } else if 0x0400_0060 <= address <= 0x0400_00AF {
            <crate::apu::registers::ApuRegister as Bus>::spec_read_byte(v.apu.registers, address)
        } else if 0x0400_00B0 <= address <= 0x04FF_FFFF {
            <IORegister as Bus>::spec_read_byte(v.io, address)
        } else if 0x0500_0000 <= address <= 0x05FF_FFFF {
            mem_byte(v.palette, (address & 0x3FF) as int)
        } else if 0x0700_0000 <= address <= 0x07FF_FFFF {
            mem_byte(v.oam, (address & 0x3FF) as int)
        } else if 0x0800_0000 <= address <= 0x0DFF_FFFF {
            mem_byte(v.rom, (address & 0x01FF_FFFF) as int)
        } else if 0x0E00_0000 <= address <= 0x0FFF_FFFF {
            mem_byte(v.sram, (address & 0xFFFF) as int)
        } else {
            0
        }
    }

    /// Writes go to EWRAM, IWRAM, the sound and I/O registers, palette RAM,
    /// object attribute memory and SRAM; BIOS, ROM, the display registers,
    /// video RAM and unmapped addresses ignore them.
    open spec fn spec_write_byte(v: GbaBusView, address: u32, value: u8) -> GbaBusView {
        if 0x0200_0000 <= address <= 0x02FF_FFFF {
            GbaBusView { ewram: mem_write(v.ewram, (address & 0x3FFFF) as int, value), ..v }
        } else if 0x0300_0000 <= address <= 0x03FF_FFFF {
            GbaBusView { iwram: mem_write(v.iwram, (address & 0x7FFF) as int, value), ..v }
        } else if 0x0400_0060 <= address <= 0x0400_00AF {
            GbaBusView {
                apu: Apu {
                    registers: <crate::apu::registers::ApuRegister as Bus>::spec_write_byte(
                        v.apu.registers,
                        address,
                        value,
                    ),
                    ..v.apu
                },
                ..v
            }
        } else if 0x0400_00B0 <= address <= 0x04FF_FFFF {
            GbaBusView { io: <IORegister as Bus>::spec_write_byte(v.io, address, value), ..v }
        } else if 0x0500_0000 <= address <= 0x05FF_FFFF {
            GbaBusView { palette: mem_write(v.palette, (address & 0x3FF) as int, value), ..v }
        } else if 0x0700_0000 <= address <= 0x07FF_FFFF {
            GbaBusView { oam: mem_write(v.oam, (address & 0x3FF) as int, value), ..v }
        } else if 0x0E00_0000 <= address <= 0x0FFF_FFFF {
            GbaBusView { sram: mem_write(v.sram, (address & 0xFFFF) as int, value), ..v }
        } else {
            v
        }
    }

    fn read_byte(&self, address: u32) -> (r: u8) {
        if address <= 0x0000_3FFF {
            get_byte(&self.bios, address as usize)
        } else if 0x0200_0000 <= address && address <= 0x02FF_FFFF {
            get_byte(&self.ewram, (address & 0x3FFFF) as usize)
        } else if 0x0300_0000 <= address && address <= 0x03FF_FFFF {
            get_byte(&self.iwram, (address & 0x7FFF) as usize)
        } else if 0x0400_0060 <= address && address <= 0x0400_00AF {
            self.apu.registers.read_byte(address)
        } else if 0x0400_00B0 <= address && address <= 0x04FF_FFFF {
            self.io.read_byte(address)
        } else if 0x0500_0000 <= address && address <= 0x05FF_FFFF {
            get_byte(&self.palette, (address & 0x3FF) as usize)
        } else if 0x0700_0000 <= address && address <= 0x07FF_FFFF {
            get_byte(&self.oam, (address & 0x3FF) as usize)
        } else if 0x0800_0000 <= address && address <= 0x0DFF_FFFF {
            self.read_rom((address & 0x01FF_FFFF) as usize)
        } else if 0x0E00_0000 <= address && address <= 0x0FFF_FFFF {
            get_byte(&self.sram, (address & 0xFFFF) as usize)
        } else {
            0
        }
    }

    fn write_byte(&mut self, address: u32, value: u8) {
        if 0x0200_0000 <= address && address <= 0x02FF_FFFF {
            set_byte(&mut self.ewram, (address & 0x3FFFF) as usize, value);
        } else if 0x0300_0000 <= address && address <= 0x03FF_FFFF {
            set_byte(&mut self.iwram, (address & 0x7FFF) as usize, value);
        } else if 0x0400_0060 <= address && address <= 0x0400_00AF {
            self.apu.registers.write_byte(address, value);
        } else if 0x0400_00B0 <= address && address <= 0x04FF_FFFF {
            self.io.write_byte(address, value);
        } else if 0x0500_0000 <= address && address <= 0x05FF_FFFF {
            set_byte(&mut self.palette, (address & 0x3FF) as usize, value);
        } else if 0x0700_0000 <= address && address <= 0x07FF_FFFF {
            set_byte(&mut self.oam, (address & 0x3FF) as usize, value);
        } else if 0x0E00_0000 <= address && address <= 0x0FFF_FFFF {
            set_byte(&mut self.sram, (address & 0xFFFF) as usize, value);
        }
    }
}

impl GbaBus {
    /// Byte `address` of the ROM, 0 past its end.
    pub fn read_rom(&self, address: usize) -> (r: u8)
        ensures
            r == mem_byte(self.rom@, address as int),
    {
        get_byte(&self.rom, address)
    }
}

impl GbaBusView {
    /// The bus after interrupt `irq` is signalled: with interrupts enabled
    /// at all and `irq` enabled, its request flag is set.
    pub open spec fn spec_send_interrupt(self, irq: InterruptFlag) -> GbaBusView {
        if self.io.spec_irq_master_enable() && self.io.spec_is_irq_enabled(irq) {
            GbaBusView {
                io: IORegister {
                    irf: with_bit(self.io.irf as u32, irq.spec_bit(), true) as u16,
                    ..self.io
                },
                ..self
            }
        } else {
            self
        }
    }

    /// Whether the timers can take `cycles` more cycles.
    pub open spec fn tick_ok(self, cycles: u32) -> bool {
        &&& self.io.timer0.tick_ok(cycles)
        &&& self.io.timer1.tick_ok(cycles)
        &&& self.io.timer2.tick_ok(cycles)
        &&& self.io.timer3.tick_ok(cycles)
    }

    /// The bus after `cycles` cycles: the timers advance in a chain, each
    /// count-up timer counting the overflows of the one before; overflows
    /// of timers 0 and 1 feed the sound FIFOs; then the first interrupt
    /// raised by the registers is signalled.
    pub open spec fn spec_tick(self, cycles: u32) -> GbaBusView {
        let (o0, t0) = self.io.timer0.spec_tick(cycles, false);
        let (o1, t1) = self.io.timer1.spec_tick(cycles, o0);
        let (o2, t2) = self.io.timer2.spec_tick(cycles, o1);
        let (o3, t3) = self.io.timer3.spec_tick(cycles, o2);
        let io1 = IORegister { timer0: t0, timer1: t1, timer2: t2, timer3: t3, ..self.io };
        let apu1 = if o0 {
            self.apu.spec_on_timer_overflow(DmaTimer::Timer0)
        } else {
            self.apu
        };
        let apu2 = if o1 {
            apu1.spec_on_timer_overflow(DmaTimer::Timer1)
        } else {
            apu1
        };
        let (irq, io2) = io1.spec_poll_interrupt();
        let v = GbaBusView { io: io2, apu: apu2, ..self };
        match irq {
            Some(i) => v.spec_send_interrupt(i),
            None => v,
        }
    }

    /// Cycles of an access of `dt` at `address`: from the tables by page
    /// (address bits 27-24) for half-words and words, one for bytes.
    pub open spec fn spec_rw_cycle(self, address: u32, dt: DataType, access: MemoryAccess) -> u32 {
        let page = ((address >> 24u32) & 0xF) as int;
        match (dt, access) {
            (DataType::HWord, MemoryAccess::NonSequential) => self.cycles_lut.n16[page] as u32,
            (DataType::HWord, MemoryAccess::Sequential) => self.cycles_lut.s16[page] as u32,
            (DataType::Word, MemoryAccess::NonSequential) => self.cycles_lut.n32[page] as u32,
            (DataType::Word, MemoryAccess::Sequential) => self.cycles_lut.s32[page] as u32,
            _ => 1,
        }
    }
}

/// Whether an access of `dt` at `address` has an entry in the access-time
/// tables: bytes always, wider accesses below page 15.
pub open spec fn rw_cycle_ok(address: u32, dt: DataType) -> bool {
    dt == DataType::Byte || ((address >> 24u32) & 0xF) < 15
}

impl GbaBus {
    /// The bus at power-on: zeroed memories, no ROM, registers reset.
    pub fn new() -> (r: GbaBus)
        ensures
            r@.wf(),
            r@.bios == Seq::new(BIOS_SIZE as nat, |i: int| 0u8),
            r@.iwram == Seq::new(IWRAM_SIZE as nat, |i: int| 0u8),
            r@.ewram == Seq::new(EWRAM_SIZE as nat, |i: int| 0u8),
            r@.sram == Seq::new(SRAM_SIZE as nat, |i: int| 0u8),
            r@.palette == Seq::new(PALETTE_SIZE as nat, |i: int| 0u8),
            r@.oam == Seq::new(OAM_SIZE as nat, |i: int| 0u8),
            r@.rom == Seq::<u8>::empty(),
            r@.io == IORegister::spec_new(),
            r@.apu == Apu::spec_default(),
            r@.cycles_lut.is_default(),
            r@.divider == 0,
    {
        let r = GbaBus {
            bios: vec![0u8; BIOS_SIZE],
            iwram: vec![0u8; IWRAM_SIZE],
            ewram: vec![0u8; EWRAM_SIZE],
            rom: Vec::new(),
            sram: vec![0u8; SRAM_SIZE],
            palette: vec![0u8; PALETTE_SIZE],
            oam: vec![0u8; OAM_SIZE],
            io: IORegister::new(),
            apu: Apu::default(),
            cycles_lut: CycleLUT::default(),
            divider: 0,
        };
        assert(r@.bios =~= Seq::new(BIOS_SIZE as nat, |i: int| 0u8));
        assert(r@.iwram =~= Seq::new(IWRAM_SIZE as nat, |i: int| 0u8));
        assert(r@.ewram =~= Seq::new(EWRAM_SIZE as nat, |i: int| 0u8));
        assert(r@.sram =~= Seq::new(SRAM_SIZE as nat, |i: int| 0u8));
        assert(r@.palette =~= Seq::new(PALETTE_SIZE as nat, |i: int| 0u8));
        assert(r@.oam =~= Seq::new(OAM_SIZE as nat, |i: int| 0u8));
        r
    }

    /// Advances the timers by `cycles` cycles and signals the interrupt
    /// they raise (see `spec_tick`).
    pub fn tick(&mut self, cycles: u32)
        requires
            old(self)@.tick_ok(cycles),
        ensures
            final(self)@ == old(self)@.spec_tick(cycles),
    {
        let ovf0 = self.io.timer0.tick(cycles, false);
        let ovf1 = self.io.timer1.tick(cycles, ovf0);
        let ovf2 = self.io.timer2.tick(cycles, ovf1);
        let _ovf3 = self.io.timer3.tick(cycles, ovf2);
        if ovf0 {
            self.apu.on_timer_overflow(DmaTimer::Timer0);
        }
        if ovf1 {
            self.apu.on_timer_overflow(DmaTimer::Timer1);
        }
        let interrupt = self.io.poll_interrupt();
        if let Some(interrupt) = interrupt {
            self.send_interrupt(interrupt);
        }
    }

    /// Cycles of an access (see `spec_rw_cycle`).
    pub fn rw_cycle(&self, addr: u32, dt: DataType, access_kind: MemoryAccess) -> (r: Cycle)
        requires
            rw_cycle_ok(addr, dt),
        ensures
            r.0 == self@.spec_rw_cycle(addr, dt, access_kind),
            r.0 <= 255,
    {
        let page = ((addr >> 24u32) & 0xF) as usize;
        let cycles = match (dt, access_kind) {
            (DataType::HWord, MemoryAccess::NonSequential) => self.cycles_lut.n16[page],
            (DataType::HWord, MemoryAccess::Sequential) => self.cycles_lut.s16[page],
            (DataType::Word, MemoryAccess::NonSequential) => self.cycles_lut.n32[page],
            (DataType::Word, MemoryAccess::Sequential) => self.cycles_lut.s32[page],
            _ => 1,
        };
        Cycle(cycles as u32)
    }

    /// Signals interrupt `irq` (see `spec_send_interrupt`).
    pub fn send_interrupt(&mut self, interrupt: InterruptFlag)
        ensures
            final(self)@ == old(self)@.spec_send_interrupt(interrupt),
    {
        if self.io.irq_master_enable() && self.io.is_irq_enabled(interrupt) {
            proof {
                crate::utils::bits::lemma_update16_fits(self.io.irf, interrupt.spec_bit(), true);
            }
            self.io.set_irq(interrupt);
        }
    }

    /// Clears the work RAMs, SRAM, palette RAM and object attribute memory
    /// and resets the I/O and sound registers.
    pub fn reset(&mut self)
        requires
            old(self)@.wf(),
        ensures
            final(self)@ == (GbaBusView {
                iwram: Seq::new(IWRAM_SIZE as nat, |i: int| 0u8),
                ewram: Seq::new(EWRAM_SIZE as nat, |i: int| 0u8),
                sram: Seq::new(SRAM_SIZE as nat, |i: int| 0u8),
                palette: Seq::new(PALETTE_SIZE as nat, |i: int| 0u8),
                oam: Seq::new(OAM_SIZE as nat, |i: int| 0u8),
                io: IORegister::spec_new(),
                apu: Apu::spec_default(),
                ..old(self)@
            }),
    {
        self.iwram = vec![0u8; IWRAM_SIZE];
        self.ewram = vec![0u8; EWRAM_SIZE];
        self.sram = vec![0u8; SRAM_SIZE];
        self.palette = vec![0u8; PALETTE_SIZE];
        self.oam = vec![0u8; OAM_SIZE];
        self.io = IORegister::new();
        self.apu.reset();
        assert(self@.iwram =~= Seq::new(IWRAM_SIZE as nat, |i: int| 0u8));
        assert(self@.ewram =~= Seq::new(EWRAM_SIZE as nat, |i: int| 0u8));
        assert(self@.sram =~= Seq::new(SRAM_SIZE as nat, |i: int| 0u8));
        assert(self@.palette =~= Seq::new(PALETTE_SIZE as nat, |i: int| 0u8));
        assert(self@.oam =~= Seq::new(OAM_SIZE as nat, |i: int| 0u8));
    }
}

/// The registers of DMA channel `ch`.
pub open spec fn spec_dma_at(io: IORegister, ch: int) -> Dma {
    if ch == 0 {
        io.dma0
    } else if ch == 1 {
        io.dma1
    } else if ch == 2 {
        io.dma2
    } else {
        io.dma3
    }
}

/// The registers with those of DMA channel `ch` replaced by `d`.
pub open spec fn spec_with_dma(io: IORegister, ch: int, d: Dma) -> IORegister {
    if ch == 0 {
        IORegister { dma0: d, ..io }
    } else if ch == 1 {
        IORegister { dma1: d, ..io }
    } else if ch == 2 {
        IORegister { dma2: d, ..io }
    } else {
        IORegister { dma3: d, ..io }
    }
}

/// The address after one unit of a transfer of `size` bytes.
pub open spec fn spec_next_address(addr: u32, ctrl: DmaAddressControl, size: u32, dst: bool) -> u32 {
    match ctrl {
        DmaAddressControl::Increment => addr.wrapping_add(size),
        DmaAddressControl::Decrement => addr.wrapping_sub(size),
        DmaAddressControl::IncrementReload => if dst {
            addr
        } else {
            addr.wrapping_add(size)
        },
        DmaAddressControl::Fixed => addr,
    }
}

impl GbaBusView {
    /// Whether channel `ch` starts now, and the bus after asking: an enabled
    /// channel starts at once with immediate timing; with special timing,
    /// channel 0 starts at once and the sound channels when their FIFO has
    /// requested a refill (the request is taken). Blank timings never start
    /// here, the display not being part of this bus.
    pub open spec fn spec_should_start_dma(self, ch: int) -> (bool, GbaBusView) {
        let d = spec_dma_at(self.io, ch);
        if !d.spec_dma_enable() {
            (false, self)
        } else {
            match d.spec_start_timing() {
                DmaStartTiming::Immediate => (true, self),
                DmaStartTiming::Special => match d.channel.spec_special_timing() {
                    DmaSpecialTiming::FifoA => (
                        self.apu.fifo_a_request,
                        GbaBusView { apu: Apu { fifo_a_request: false, ..self.apu }, ..self },
                    ),
                    DmaSpecialTiming::FifoB => (
                        self.apu.fifo_b_request,
                        GbaBusView { apu: Apu { fifo_b_request: false, ..self.apu }, ..self },
                    ),
                    _ => (true, self),
                },
                _ => (false, self),
            }
        }
    }

    /// Whether asking channel `ch` is defined: video capture timing is not.
    pub open spec fn should_start_dma_ok(self, ch: int) -> bool {
        let d = spec_dma_at(self.io, ch);
        !(d.spec_dma_enable() && d.spec_start_timing() == DmaStartTiming::Special
            && d.channel.spec_special_timing() == DmaSpecialTiming::VideoCapture)
    }

    /// The first channel from `ch` on that starts, its transfer, and the bus
    /// after asking the channels in turn; a channel that starts and does
    /// not repeat is disabled.
    pub open spec fn spec_poll_active_dma(self, ch: int) -> (Option<DmaData>, GbaBusView)
        decreases 4 - ch,
    {
        if ch < 0 || ch >= 4 {
            (None, self)
        } else {
            let (start, v1) = self.spec_should_start_dma(ch);
            if start {
                let d = spec_dma_at(v1.io, ch);
                let d1 = if !d.spec_repeat() {
                    Dma { cnt_h: with_bit(d.cnt_h as u32, 15, false) as u16, ..d }
                } else {
                    d
                };
                (Some(d.spec_data()), GbaBusView { io: spec_with_dma(v1.io, ch, d1), ..v1 })
            } else {
                v1.spec_poll_active_dma(ch + 1)
            }
        }
    }

    /// Whether polling from channel `ch` on is defined: every channel asked
    /// has a defined timing, and the one that starts a valid source control.
    pub open spec fn poll_active_dma_ok(self, ch: int) -> bool
        decreases 4 - ch,
    {
        if ch < 0 || ch >= 4 {
            true
        } else {
            let (start, v1) = self.spec_should_start_dma(ch);
            &&& self.should_start_dma_ok(ch)
            &&& if start {
                spec_dma_at(v1.io, ch).src_addr_control_valid()
            } else {
                v1.poll_active_dma_ok(ch + 1)
            }
        }
    }

    /// Cycles of a transfer: the first read and write non-sequential, the
    /// others sequential, plus 2 internal cycles, or 4 between Game Pak areas.
    pub open spec fn spec_dma_cycles(self, d: DmaData) -> u32 {
        let n = d.transfer_len - 1;
        let reads = self.spec_rw_cycle(d.src_addr, d.transfer_type, MemoryAccess::NonSequential)
            + self.spec_rw_cycle(d.src_addr, d.transfer_type, MemoryAccess::Sequential) * n;
        let writes = self.spec_rw_cycle(d.dst_addr, d.transfer_type, MemoryAccess::NonSequential)
            + self.spec_rw_cycle(d.dst_addr, d.transfer_type, MemoryAccess::Sequential) * n;
        let internal = if spec_is_gamepak(d.src_addr) && spec_is_gamepak(d.dst_addr) {
            4int
        } else {
            2int
        };
        (reads + writes + internal) as u32
    }

    /// The bus after `n` units of transfer `d` from `src` to `dst`.
    pub open spec fn spec_dma_copy(self, d: DmaData, src: u32, dst: u32, n: nat) -> GbaBusView
        decreases n,
    {
        if n == 0 {
            self
        } else {
            let v1 = match d.transfer_type {
                DataType::Word => spec_write_word::<GbaBus>(self, dst, spec_read_word::<GbaBus>(self, src)),
                _ => spec_write_hword::<GbaBus>(self, dst, spec_read_hword::<GbaBus>(self, src)),
            };
            let size = d.transfer_type.spec_size() as u32;
            v1.spec_dma_copy(
                d,
                spec_next_address(src, d.src_addr_ctrl, size, false),
                spec_next_address(dst, d.dst_addr_ctrl, size, true),
                (n - 1) as nat,
            )
        }
    }

    /// The transfer that starts now, if any, and the bus after it: the
    /// channels are polled, the transfer runs, and its interrupt is
    /// signalled when enabled.
    pub open spec fn spec_try_dma(self) -> (Option<DmaResult>, GbaBusView) {
        let (o, v1) = self.spec_poll_active_dma(0);
        match o {
            None => (None, v1),
            Some(d) => {
                let c = v1.spec_dma_cycles(d);
                let v2 = v1.spec_dma_copy(d, d.src_addr, d.dst_addr, d.transfer_len as nat);
                let v3 = if d.irq_enable {
                    v2.spec_send_interrupt(d.channel.spec_interrupt())
                } else {
                    v2
                };
                (Some(DmaResult { data: d, cycles: Cycle(c) }), v3)
            },
        }
    }

    /// Whether the cycles of transfer `d` are defined: it moves at least
    /// one unit, between pages that the access-time tables cover.
    pub open spec fn dma_cycles_ok(d: DmaData) -> bool {
        &&& d.transfer_len >= 1
        &&& rw_cycle_ok(d.src_addr, d.transfer_type)
        &&& rw_cycle_ok(d.dst_addr, d.transfer_type)
    }

    /// Whether `spec_try_dma` is defined on this bus.
    pub open spec fn try_dma_ok(self) -> bool {
        &&& self.poll_active_dma_ok(0)
        &&& self.spec_poll_active_dma(0).0 matches Some(d) ==> GbaBusView::dma_cycles_ok(d)
    }
}

impl GbaBus {
    fn dma_at(&self, ch: usize) -> (r: Dma)
        ensures
            r == spec_dma_at(self.io, ch as int),
    {
        if ch == 0 {
            self.io.dma0
        } else if ch == 1 {
            self.io.dma1
        } else if ch == 2 {
            self.io.dma2
        } else {
            self.io.dma3
        }
    }

    fn set_dma_at(&mut self, ch: usize, d: Dma)
        ensures
            final(self)@ == (GbaBusView { io: spec_with_dma(old(self).io, ch as int, d), ..old(self)@ }),
    {
        if ch == 0 {
            self.io.dma0 = d;
        } else if ch == 1 {
            self.io.dma1 = d;
        } else if ch == 2 {
            self.io.dma2 = d;
        } else {
            self.io.dma3 = d;
        }
    }

    /// Whether channel `channel` starts now (see `spec_should_start_dma`).
    pub fn should_start_dma(&mut self, channel: usize) -> (r: bool)
        requires
            old(self)@.should_start_dma_ok(channel as int),
        ensures
            (r, final(self)@) == old(self)@.spec_should_start_dma(channel as int),
    {
        let dma = self.dma_at(channel);
        if !dma.dma_enable() {
            return false;
        }
        match dma.start_timing() {
            DmaStartTiming::Immediate => true,
            DmaStartTiming::Special => match dma.special_timing() {
                DmaSpecialTiming::FifoA => self.apu.poll_fifo_a_request(),
                DmaSpecialTiming::FifoB => self.apu.poll_fifo_b_request(),
                _ => true,
            },
            _ => false,
        }
    }

    /// The first channel that starts now (see `spec_poll_active_dma`).
    pub fn poll_active_dma(&mut self) -> (r: Option<DmaData>)
        requires
            old(self)@.poll_active_dma_ok(0),
        ensures
            (r, final(self)@) == old(self)@.spec_poll_active_dma(0),
    {
        let mut ch: usize = 0;
        while ch < 4
            invariant
                ch <= 4,
                self@.poll_active_dma_ok(ch as int),
                self@.spec_poll_active_dma(ch as int) == old(self)@.spec_poll_active_dma(0),
            decreases 4 - ch,
        {
            if self.should_start_dma(ch) {
                let mut dma = self.dma_at(ch);
                let data = dma.get_data();
                if !dma.repeat() {
                    dma.disable();
                }
                self.set_dma_at(ch, dma);
                return Some(data);
            }
            ch = ch + 1;
        }
        None
    }

    /// Cycles of transfer `dma` (see `spec_dma_cycles`).
    pub fn dma_cycles(&self, dma: &DmaData) -> (r: Cycle)
        requires
            GbaBusView::dma_cycles_ok(*dma),
        ensures
            r.0 == self@.spec_dma_cycles(*dma),
    {
        let dt = dma.transfer_type;
        let n = dma.transfer_len - 1;
        let read_seq = self.rw_cycle(dma.src_addr, dt, MemoryAccess::Sequential);
        let write_seq = self.rw_cycle(dma.dst_addr, dt, MemoryAccess::Sequential);
        let read_non_seq = self.rw_cycle(dma.src_addr, dt, MemoryAccess::NonSequential);
        let write_non_seq = self.rw_cycle(dma.dst_addr, dt, MemoryAccess::NonSequential);
        proof {
            assert(read_seq.0 * n <= 255 * 0xFFFF_FFFFu32) by (nonlinear_arith)
                requires
                    read_seq.0 <= 255,
            ;
            assert(write_seq.0 * n <= 255 * 0xFFFF_FFFFu32) by (nonlinear_arith)
                requires
                    write_seq.0 <= 255,
            ;
        }
        let read_cycles = read_non_seq.0 as u64 + read_seq.0 as u64 * n as u64;
        let write_cycles = write_non_seq.0 as u64 + write_seq.0 as u64 * n as u64;
        let internal_cycles: u64 = if is_gamepak(dma.src_addr) && is_gamepak(dma.dst_addr) {
            4
        } else {
            2
        };
        Cycle((read_cycles + write_cycles + internal_cycles) as u32)
    }

    /// Runs transfer `dma` (see `spec_dma_copy`).
    pub fn execute_dma(&mut self, dma: &DmaData)
        ensures
            final(self)@ == old(self)@.spec_dma_copy(*dma, dma.src_addr, dma.dst_addr, dma.transfer_len as nat),
    {
        let mut src_addr = dma.src_addr;
        let mut dst_addr = dma.dst_addr;
        let dma_dt = dma.transfer_type;
        let chunk_size = dma_dt.size() as u32;
        let mut i: u32 = 0;
        while i < dma.transfer_len
            invariant
                i <= dma.transfer_len,
                chunk_size == dma.transfer_type.spec_size(),
                dma_dt == dma.transfer_type,
                self@.spec_dma_copy(*dma, src_addr, dst_addr, (dma.transfer_len - i) as nat)
                    == old(self)@.spec_dma_copy(*dma, dma.src_addr, dma.dst_addr, dma.transfer_len as nat),
            decreases dma.transfer_len - i,
        {
            match dma_dt {
                DataType::Word => {
                    let word = read_word(&*self, src_addr);
                    write_word(self, dst_addr, word);
                },
                _ => {
                    let hword = read_hword(&*self, src_addr);
                    write_hword(self, dst_addr, hword);
                },
            }
            dst_addr = match dma.dst_addr_ctrl {
                DmaAddressControl::Increment => dst_addr.wrapping_add(chunk_size),
                DmaAddressControl::Decrement => dst_addr.wrapping_sub(chunk_size),
                _ => dst_addr,
            };
            src_addr = match dma.src_addr_ctrl {
                DmaAddressControl::Decrement => src_addr.wrapping_sub(chunk_size),
                DmaAddressControl::Increment | DmaAddressControl::IncrementReload => src_addr.wrapping_add(chunk_size),
                DmaAddressControl::Fixed => src_addr,
            };
            i = i + 1;
        }
    }

    /// Runs the transfer that starts now, if any (see `spec_try_dma`).
    pub fn try_dma(&mut self) -> (r: Option<DmaResult>)
        requires
            old(self)@.try_dma_ok(),
        ensures
            (r, final(self)@) == old(self)@.spec_try_dma(),
    {
        let data = match self.poll_active_dma() {
            Some(d) => d,
            None => return None,
        };
        let cycles = self.dma_cycles(&data);
        self.execute_dma(&data);
        if data.irq_enable {
            self.send_interrupt(data.channel.interrupt());
        }
        Some(DmaResult { data, cycles })
    }
}

/// A read-only view of the bus for debuggers: the write-only DMA registers
/// read back; everything else reads as on the bus.
pub struct IOPeeker<'a>(pub &'a GbaBus);

impl<'a> View for IOPeeker<'a> {
    type V = GbaBusView;

    open spec fn view(&self) -> GbaBusView {
        self.0@
    }
}

impl<'a> Bus for IOPeeker<'a> {
    open spec fn spec_read_byte(v: GbaBusView, address: u32) -> u8 {
        if 0x0400_00B0 <= address <= 0x0400_00BB {
            v.io.dma0.spec_peek_byte(address)
        } else if 0x0400_00BC <= address <= 0x0400_00C7 {
            v.io.dma1.spec_peek_byte(address)
        } else if 0x0400_00C8 <= address <= 0x0400_00D3 {
            v.io.dma2.spec_peek_byte(address)
        } else if 0x0400_00D4 <= address <= 0x0400_00DF {
            v.io.dma3.spec_peek_byte(address)
        } else {
            <GbaBus as Bus>::spec_read_byte(v, address)
        }
    }

    /// Writes are ignored.
    open spec fn spec_write_byte(v: GbaBusView, address: u32, value: u8) -> GbaBusView {
        v
    }

    fn read_byte(&self, address: u32) -> (r: u8) {
        let io = &self.0.io;
        if 0x0400_00B0 <= address && address <= 0x0400_00BB {
            io.dma0.peek_byte(address)
        } else if 0x0400_00BC <= address && address <= 0x0400_00C7 {
            io.dma1.peek_byte(address)
        } else if 0x0400_00C8 <= address && address <= 0x0400_00D3 {
            io.dma2.peek_byte(address)
        } else if 0x0400_00D4 <= address && address <= 0x0400_00DF {
            io.dma3.peek_byte(address)
        } else {
            self.0.read_byte(address)
        }
    }

    fn write_byte(&mut self, address: u32, value: u8) {
    }
}

impl GbaBus {
    /// The half-word at `address` as a debugger sees it (see `IOPeeker`).
    pub fn peek_hword(&self, address: u32) -> (r: u16)
        ensures
            r == spec_read_hword::<IOPeeker>(self@, address),
    {
        read_hword(&IOPeeker(self), address)
    }

    /// The word at `address` as a debugger sees it (see `IOPeeker`).
    pub fn peek_word(&self, address: u32) -> (r: u32)
        ensures
            r == spec_read_word::<IOPeeker>(self@, address),
    {
        read_word(&IOPeeker(self), address)
    }
}

/// A bus that counts the cycles of its accesses.
pub trait ClockedBus: Bus {
    /// Whether `count` more internal cycles can be counted in state `v`.
    spec fn internal_cycles_ok(v: Self::V, count: u32) -> bool;

    /// The state after counting `count` internal cycles.
    spec fn spec_internal_cycles(v: Self::V, count: u32) -> Self::V;

    /// Whether the cycles of an access can be counted in state `v`.
    spec fn resolve_cycles_ok(v: Self::V, address: u32, access: MemoryAccess, dt: DataType) -> bool;

    /// The state after counting the cycles of an access of `dt` at `address`.
    spec fn spec_resolve_cycles(v: Self::V, address: u32, access: MemoryAccess, dt: DataType) -> Self::V;

    /// Counts `count` internal cycles.
    fn internal_cycles(&mut self, count: u32)
        requires
            Self::internal_cycles_ok(old(self)@, count),
        ensures
            final(self)@ == Self::spec_internal_cycles(old(self)@, count),
    ;

    /// Counts the cycles of an access of `dt` at `address`.
    fn resolve_cycles(&mut self, address: u32, access: MemoryAccess, dt: DataType)
        requires
            Self::resolve_cycles_ok(old(self)@, address, access, dt),
        ensures
            final(self)@ == Self::spec_resolve_cycles(old(self)@, address, access, dt),
    ;
}

/// A timed byte read: the access is counted, then the byte read.
pub fn read_byte_clk<B: ClockedBus>(bus: &mut B, address: u32, access: MemoryAccess) -> (r: u8)
    requires
        B::resolve_cycles_ok(old(bus)@, address, access, DataType::Byte),
    ensures
        final(bus)@ == B::spec_resolve_cycles(old(bus)@, address, access, DataType::Byte),
        r == B::spec_read_byte(final(bus)@, address),
{
    bus.resolve_cycles(address, access, DataType::Byte);
    bus.read_byte(address)
}

/// A timed half-word read: the access is counted, then the half-word read.
pub fn read_hword_clk<B: ClockedBus>(bus: &mut B, address: u32, access: MemoryAccess) -> (r: u16)
    requires
        B::resolve_cycles_ok(old(bus)@, address, access, DataType::HWord),
    ensures
        final(bus)@ == B::spec_resolve_cycles(old(bus)@, address, access, DataType::HWord),
        r == spec_read_hword::<B>(final(bus)@, address),
{
    bus.resolve_cycles(address, access, DataType::HWord);
    read_hword(&*bus, address)
}

/// A timed word read: the access is counted, then the word read.
pub fn read_word_clk<B: ClockedBus>(bus: &mut B, address: u32, access: MemoryAccess) -> (r: u32)
    requires
        B::resolve_cycles_ok(old(bus)@, address, access, DataType::Word),
    ensures
        final(bus)@ == B::spec_resolve_cycles(old(bus)@, address, access, DataType::Word),
        r == spec_read_word::<B>(final(bus)@, address),
{
    bus.resolve_cycles(address, access, DataType::Word);
    read_word(&*bus, address)
}

/// A timed byte write: the access is counted, then the byte written.
pub fn write_byte_clk<B: ClockedBus>(bus: &mut B, address: u32, value: u8, access: MemoryAccess)
    requires
        B::resolve_cycles_ok(old(bus)@, address, access, DataType::Byte),
    ensures
        final(bus)@ == B::spec_write_byte(
            B::spec_resolve_cycles(old(bus)@, address, access, DataType::Byte),
            address,
            value,
        ),
{
    bus.resolve_cycles(address, access, DataType::Byte);
    bus.write_byte(address, value);
}

/// A timed half-word write: the access is counted, then the half-word written.
pub fn write_hword_clk<B: ClockedBus>(bus: &mut B, address: u32, value: u16, access: MemoryAccess)
    requires
        B::resolve_cycles_ok(old(bus)@, address, access, DataType::HWord),
    ensures
        final(bus)@ == spec_write_hword::<B>(
            B::spec_resolve_cycles(old(bus)@, address, access, DataType::HWord),
            address,
            value,
        ),
{
    bus.resolve_cycles(address, access, DataType::HWord);
    write_hword(bus, address, value);
}

/// A timed word write: the access is counted, then the word written.
pub fn write_word_clk<B: ClockedBus>(bus: &mut B, address: u32, value: u32, access: MemoryAccess)
    requires
        B::resolve_cycles_ok(old(bus)@, address, access, DataType::Word),
    ensures
        final(bus)@ == spec_write_word::<B>(
            B::spec_resolve_cycles(old(bus)@, address, access, DataType::Word),
            address,
            value,
        ),
{
    bus.resolve_cycles(address, access, DataType::Word);
    write_word(bus, address, value);
}

impl ClockedBus for GbaBus {
    open spec fn internal_cycles_ok(v: GbaBusView, count: u32) -> bool {
        v.divider + count <= u32::MAX
    }

    /// The cycle counter goes up by `count`.
    open spec fn spec_internal_cycles(v: GbaBusView, count: u32) -> GbaBusView {
        GbaBusView { divider: (v.divider + count) as u32, ..v }
    }

    /// The access has an entry in the tables and its cycles fit the counter.
    open spec fn resolve_cycles_ok(v: GbaBusView, address: u32, access: MemoryAccess, dt: DataType) -> bool {
        &&& rw_cycle_ok(address, dt)
        &&& v.divider + v.spec_rw_cycle(address, dt, access) <= u32::MAX
    }

    /// The cycle counter goes up by the cycles of the access (see `spec_rw_cycle`).
    open spec fn spec_resolve_cycles(v: GbaBusView, address: u32, access: MemoryAccess, dt: DataType) -> GbaBusView {
        GbaBusView { divider: (v.divider + v.spec_rw_cycle(address, dt, access)) as u32, ..v }
    }

    fn internal_cycles(&mut self, count: u32) {
        self.divider = self.divider + count;
    }

    fn resolve_cycles(&mut self, address: u32, access: MemoryAccess, dt: DataType) {
        let c = self.rw_cycle(address, dt, access);
        self.divider = self.divider + c.0;
    }
}

} // verus!
