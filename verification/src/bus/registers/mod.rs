pub mod dma;
pub mod interrupt;
pub mod keyinput;
pub mod keypad;
pub mod timer;
pub mod waitcnt;

use vstd::prelude::*;

use crate::bus::memory::Bus;
use crate::bus::registers::dma::{Dma, DmaChannel};
use crate::bus::registers::interrupt::InterruptFlag;
use crate::bus::registers::keypad::Keypad;
use crate::bus::registers::timer::{Timer, TimerUnit};
use crate::bus::registers::waitcnt::Waitcnt;
use crate::utils::bits::{bit, is_set16, update16, with_bit};

verus! {

/// The I/O registers of the DMA channels, timers, keypad, interrupt and
/// system control.
#[derive(Debug, Clone, Copy, PartialEq, Eq, Structural)]
pub struct IORegister {
    /// 0x0B0: DMA 0 source, destination, word count, control
    pub dma0: Dma,
    /// 0x0BC: DMA 1 source, destination, word count, control
    pub dma1: Dma,
    /// 0x0C8: DMA 2 source, destination, word count, control
    pub dma2: Dma,
    /// 0x0D4: DMA 3 source, destination, word count, control
    pub dma3: Dma,
    /// 0x100: timer 0 reload and control
    pub timer0: Timer,
    /// 0x104: timer 1 reload and control
    pub timer1: Timer,
    /// 0x108: timer 2 reload and control
    pub timer2: Timer,
    /// 0x10C: timer 3 reload and control
    pub timer3: Timer,
    /// 0x130: key status and key interrupt control
    pub keypad: Keypad,
    /// 0x200: interrupt enable
    pub ie: u16,
    /// 0x202: interrupt request flags
    pub irf: u16,
    /// 0x204: wait state control
    pub waitcnt: Waitcnt,
    /// 0x208: interrupt master enable
    pub ime: u16,
    /// 0x300: power down control
    pub haltcnt: u16,
    /// 0x800: internal memory control
    pub imemcnt: u32,
}

impl View for IORegister {
    type V = IORegister;

    open spec fn view(&self) -> IORegister {
        *self
    }
}

impl IORegister {
    pub open spec fn spec_new() -> IORegister {
        IORegister {
            dma0: Dma::spec_new(DmaChannel::Dma0),
            dma1: Dma::spec_new(DmaChannel::Dma1),
            dma2: Dma::spec_new(DmaChannel::Dma2),
            dma3: Dma::spec_new(DmaChannel::Dma3),
            timer0: Timer::spec_new(TimerUnit::Timer0),
            timer1: Timer::spec_new(TimerUnit::Timer1),
            timer2: Timer::spec_new(TimerUnit::Timer2),
            timer3: Timer::spec_new(TimerUnit::Timer3),
            keypad: Keypad { keyinput: 0x3FF, keycnt: 0 },
            ie: 0,
            irf: 0,
            waitcnt: Waitcnt { value: 0 },
            ime: 0,
            haltcnt: 0,
            imemcnt: 0,
        }
    }

    pub open spec fn spec_irq_master_enable(self) -> bool {
        bit(self.ime as u32, 0)
    }

    pub open spec fn spec_is_irq_enabled(self, irq: InterruptFlag) -> bool {
        bit(self.ie as u32, irq.spec_bit())
    }

    pub open spec fn spec_has_irq(self, irq: InterruptFlag) -> bool {
        bit(self.irf as u32, irq.spec_bit())
    }

    /// The registers in their reset state: every channel and timer stopped,
    /// no key pressed, no interrupt enabled or requested.
    pub fn new() -> (r: IORegister)
        ensures
            r == IORegister::spec_new(),
    {
        IORegister {
            dma0: Dma::new(DmaChannel::Dma0),
            dma1: Dma::new(DmaChannel::Dma1),
            dma2: Dma::new(DmaChannel::Dma2),
            dma3: Dma::new(DmaChannel::Dma3),
            timer0: Timer::new(TimerUnit::Timer0),
            timer1: Timer::new(TimerUnit::Timer1),
            timer2: Timer::new(TimerUnit::Timer2),
            timer3: Timer::new(TimerUnit::Timer3),
            keypad: Keypad { keyinput: 0x3FF, keycnt: 0 },
            ie: 0,
            irf: 0,
            waitcnt: Waitcnt { value: 0 },
            ime: 0,
            haltcnt: 0,
            imemcnt: 0,
        }
    }

    /// Whether any interrupt is requested.
    pub fn has_pending_irq(&self) -> (r: bool)
        ensures
            r == (self.irf != 0),
    {
        self.irf != 0
    }

    /// Whether interrupts are enabled at all (IME bit 0).
    pub fn irq_master_enable(&self) -> (r: bool)
        ensures
            r == self.spec_irq_master_enable(),
    {
        is_set16(self.ime, 0)
    }

    /// Whether interrupt `irq` is enabled in IE.
    pub fn is_irq_enabled(&self, irq: InterruptFlag) -> (r: bool)
        ensures
            r == self.spec_is_irq_enabled(irq),
    {
        is_set16(self.ie, irq.bit())
    }

    /// Requests interrupt `irq`: sets its bit in IF.
    pub fn set_irq(&mut self, irq: InterruptFlag)
        ensures
            final(self).irf as u32 == with_bit(old(self).irf as u32, irq.spec_bit(), true),
            *final(self) == (IORegister { irf: final(self).irf, ..*old(self) }),
    {
        self.irf = update16(self.irf, irq.bit(), true);
    }

    /// Enables interrupts at all.
    pub fn enable_master_irq(&mut self)
        ensures
            *final(self) == (IORegister { ime: 1, ..*old(self) }),
    {
        self.ime = 1;
    }

    /// Enables interrupt `irq` in IE.
    pub fn enable_irq(&mut self, irq: InterruptFlag)
        ensures
            final(self).ie as u32 == with_bit(old(self).ie as u32, irq.spec_bit(), true),
            *final(self) == (IORegister { ie: final(self).ie, ..*old(self) }),
    {
        self.ie = update16(self.ie, irq.bit(), true);
    }

    /// Whether interrupt `irq` is requested in IF.
    pub fn has_irq(&self, irq: InterruptFlag) -> (r: bool)
        ensures
            r == self.spec_has_irq(irq),
    {
        is_set16(self.irf, irq.bit())
    }

    /// The first pending interrupt of the timers, in unit order, or else
    /// the key interrupt, and the registers with that timer's pending
    /// interrupt taken.
    pub open spec fn spec_poll_interrupt(self) -> (Option<InterruptFlag>, IORegister) {
        if self.timer0.pending_irq is Some {
            (self.timer0.pending_irq, IORegister { timer0: Timer { pending_irq: None, ..self.timer0 }, ..self })
        } else if self.timer1.pending_irq is Some {
            (self.timer1.pending_irq, IORegister { timer1: Timer { pending_irq: None, ..self.timer1 }, ..self })
        } else if self.timer2.pending_irq is Some {
            (self.timer2.pending_irq, IORegister { timer2: Timer { pending_irq: None, ..self.timer2 }, ..self })
        } else if self.timer3.pending_irq is Some {
            (self.timer3.pending_irq, IORegister { timer3: Timer { pending_irq: None, ..self.timer3 }, ..self })
        } else {
            (self.keypad.spec_poll_interrupt(), self)
        }
    }

    /// Takes the next interrupt raised by the registers (see `spec_poll_interrupt`).
    pub fn poll_interrupt(&mut self) -> (r: Option<InterruptFlag>)
        ensures
            (r, *final(self)) == old(self).spec_poll_interrupt(),
    {
        if self.timer0.pending_irq.is_some() {
            return self.timer0.poll_interrupt();
        }
        if self.timer1.pending_irq.is_some() {
            return self.timer1.poll_interrupt();
        }
        if self.timer2.pending_irq.is_some() {
            return self.timer2.poll_interrupt();
        }
        if self.timer3.pending_irq.is_some() {
            return self.timer3.poll_interrupt();
        }
        self.keypad.poll_interrupt()
    }
}

impl Bus for IORegister {
    /// Reads by offset from 0x0400_0000: DMA control registers, timers,
    /// key status and control, IE, IF, WAITCNT, IME, HALTCNT and the
    /// internal memory control; anything else reads 0.
    open spec fn spec_read_byte(v: IORegister, address: u32) -> u8 {
        let o = address % 0x0400_0000;
        if 0x0BA <= o <= 0x0BB {
            <Dma as Bus>::spec_read_byte(v.dma0, address)
        } else if 0x0C6 <= o <= 0x0C7 {
            <Dma as Bus>::spec_read_byte(v.dma1, address)
        } else if 0x0D2 <= o <= 0x0D3 {
            <Dma as Bus>::spec_read_byte(v.dma2, address)
        } else if 0x0DE <= o <= 0x0DF {
            <Dma as Bus>::spec_read_byte(v.dma3, address)
        } else if 0x100 <= o <= 0x103 {
            <Timer as Bus>::spec_read_byte(v.timer0, address)
        } else if 0x104 <= o <= 0x107 {
            <Timer as Bus>::spec_read_byte(v.timer1, address)
        } else if 0x108 <= o <= 0x10B {
            <Timer as Bus>::spec_read_byte(v.timer2, address)
        } else if 0x10C <= o <= 0x10F {
            <Timer as Bus>::spec_read_byte(v.timer3, address)
        } else if 0x130 <= o <= 0x131 {
            <u16 as Bus>::spec_read_byte(v.keypad.keyinput, address)
        } else if 0x132 <= o <= 0x133 {
            <u16 as Bus>::spec_read_byte(v.keypad.keycnt, address)
        } else if 0x200 <= o <= 0x201 {
            <u16 as Bus>::spec_read_byte(v.ie, address)
        } else if 0x202 <= o <= 0x203 {
            <u16 as Bus>::spec_read_byte(v.irf, address)
        } else if 0x204 <= o <= 0x205 {
            <u16 as Bus>::spec_read_byte(v.waitcnt.value, address)
        } else if 0x208 <= o <= 0x209 {
            <u16 as Bus>::spec_read_byte(v.ime, address)
        } else if 0x300 <= o <= 0x301 {
            <u16 as Bus>::spec_read_byte(v.haltcnt, address)
        } else if 0x800 <= o <= 0x803 {
            <u32 as Bus>::spec_read_byte(v.imemcnt, address)
        } else {
            0
        }
    }

    /// Writes by offset from 0x0400_0000 to the writable registers; the key
    /// status is read-only and anything else is ignored.
    open spec fn spec_write_byte(v: IORegister, address: u32, value: u8) -> IORegister {
        let o = address % 0x0400_0000;
        if 0x0B0 <= o <= 0x0BB {
            IORegister { dma0: <Dma as Bus>::spec_write_byte(v.dma0, address, value), ..v }
        } else if 0x0BC <= o <= 0x0C7 {
            IORegister { dma1: <Dma as Bus>::spec_write_byte(v.dma1, address, value), ..v }
        } else if 0x0C8 <= o <= 0x0D3 {
            IORegister { dma2: <Dma as Bus>::spec_write_byte(v.dma2, address, value), ..v }
        } else if 0x0D4 <= o <= 0x0DF {
            IORegister { dma3: <Dma as Bus>::spec_write_byte(v.dma3, address, value), ..v }
        } else if 0x100 <= o <= 0x103 {
            IORegister { timer0: <Timer as Bus>::spec_write_byte(v.timer0, address, value), ..v }
        } else if 0x104 <= o <= 0x107 {
            IORegister { timer1: <Timer as Bus>::spec_write_byte(v.timer1, address, value), ..v }
        } else if 0x108 <= o <= 0x10B {
            IORegister { timer2: <Timer as Bus>::spec_write_byte(v.timer2, address, value), ..v }
        } else if 0x10C <= o <= 0x10F {
            IORegister { timer3: <Timer as Bus>::spec_write_byte(v.timer3, address, value), ..v }
        } else if 0x132 <= o <= 0x133 {
            IORegister {
                keypad: Keypad {
                    keycnt: <u16 as Bus>::spec_write_byte(v.keypad.keycnt, address, value),
                    ..v.keypad
                },
                ..v
            }
        } else if 0x200 <= o <= 0x201 {
            IORegister { ie: <u16 as Bus>::spec_write_byte(v.ie, address, value), ..v }
        } else if 0x202 <= o <= 0x203 {
            IORegister { irf: <u16 as Bus>::spec_write_byte(v.irf, address, value), ..v }
        } else if 0x204 <= o <= 0x205 {
            IORegister {
                waitcnt: Waitcnt { value: <u16 as Bus>::spec_write_byte(v.waitcnt.value, address, value) },
                ..v
            }
        } else if 0x208 <= o <= 0x209 {
            IORegister { ime: <u16 as Bus>::spec_write_byte(v.ime, address, value), ..v }
        } else if 0x300 <= o <= 0x301 {
            IORegister { haltcnt: <u16 as Bus>::spec_write_byte(v.haltcnt, address, value), ..v }
        } else if 0x800 <= o <= 0x803 {
            IORegister { imemcnt: <u32 as Bus>::spec_write_byte(v.imemcnt, address, value), ..v }
        } else {
            v
        }
    }

    fn read_byte(&self, address: u32) -> (r: u8) {
        let o = address % 0x0400_0000;
        if 0x0BA <= o && o <= 0x0BB {
            self.dma0.read_byte(address)
        } else if 0x0C6 <= o && o <= 0x0C7 {
            self.dma1.read_byte(address)
        } else if 0x0D2 <= o && o <= 0x0D3 {
            self.dma2.read_byte(address)
        } else if 0x0DE <= o && o <= 0x0DF {
            self.dma3.read_byte(address)
        } else if 0x100 <= o && o <= 0x103 {
            self.timer0.read_byte(address)
        } else if 0x104 <= o && o <= 0x107 {
            self.timer1.read_byte(address)
        } else if 0x108 <= o && o <= 0x10B {
            self.timer2.read_byte(address)
        } else if 0x10C <= o && o <= 0x10F {
            self.timer3.read_byte(address)
        } else if 0x130 <= o && o <= 0x131 {
            self.keypad.keyinput.read_byte(address)
        } else if 0x132 <= o && o <= 0x133 {
            self.keypad.keycnt.read_byte(address)
        } else if 0x200 <= o && o <= 0x201 {
            self.ie.read_byte(address)
        } else if 0x202 <= o && o <= 0x203 {
            self.irf.read_byte(address)
        } else if 0x204 <= o && o <= 0x205 {
            self.waitcnt.value.read_byte(address)
        } else if 0x208 <= o && o <= 0x209 {
            self.ime.read_byte(address)
        } else if 0x300 <= o && o <= 0x301 {
            self.haltcnt.read_byte(address)
        } else if 0x800 <= o && o <= 0x803 {
            self.imemcnt.read_byte(address)
        } else {
            0
        }
    }

    fn write_byte(&mut self, address: u32, value: u8) {
        let o = address % 0x0400_0000;
        if 0x0B0 <= o && o <= 0x0BB {
            self.dma0.write_byte(address, value);
        } else if 0x0BC <= o && o <= 0x0C7 {
            self.dma1.write_byte(address, value);
        } else if 0x0C8 <= o && o <= 0x0D3 {
            self.dma2.write_byte(address, value);
        } else if 0x0D4 <= o && o <= 0x0DF {
            self.dma3.write_byte(address, value);
        } else if 0x100 <= o && o <= 0x103 {
            self.timer0.write_byte(address, value);
        } else if 0x104 <= o && o <= 0x107 {
            self.timer1.write_byte(address, value);
        } else if 0x108 <= o && o <= 0x10B {
            self.timer2.write_byte(address, value);
        } else if 0x10C <= o && o <= 0x10F {
            self.timer3.write_byte(address, value);
        } else if 0x132 <= o && o <= 0x133 {
            self.keypad.keycnt.write_byte(address, value);
        } else if 0x200 <= o && o <= 0x201 {
            self.ie.write_byte(address, value);
        } else if 0x202 <= o && o <= 0x203 {
            self.irf.write_byte(address, value);
        } else if 0x204 <= o && o <= 0x205 {
            self.waitcnt.value.write_byte(address, value);
        } else if 0x208 <= o && o <= 0x209 {
            self.ime.write_byte(address, value);
        } else if 0x300 <= o && o <= 0x301 {
            self.haltcnt.write_byte(address, value);
        } else if 0x800 <= o && o <= 0x803 {
            self.imemcnt.write_byte(address, value);
        }
    }
}

} // verus!
