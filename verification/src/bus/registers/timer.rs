use vstd::prelude::*;

use crate::bus::memory::Bus;
use crate::bus::registers::interrupt::InterruptFlag;
use crate::utils::bits::{bit, field, get_bits16, is_set16};

verus! {

/// Timer units.
#[derive(Debug, Clone, Copy, PartialEq, Eq, Structural)]
pub enum TimerUnit {
    Timer0,
    Timer1,
    Timer2,
    Timer3,
}

impl TimerUnit {
    pub open spec fn spec_interrupt(self) -> InterruptFlag {
        match self {
            TimerUnit::Timer0 => InterruptFlag::Timer0,
            TimerUnit::Timer1 => InterruptFlag::Timer1,
            TimerUnit::Timer2 => InterruptFlag::Timer2,
            TimerUnit::Timer3 => InterruptFlag::Timer3,
        }
    }

    /// The interrupt raised by the unit's overflow.
    pub fn interrupt(self) -> (r: InterruptFlag)
        ensures
            r == self.spec_interrupt(),
    {
        match self {
            TimerUnit::Timer0 => InterruptFlag::Timer0,
            TimerUnit::Timer1 => InterruptFlag::Timer1,
            TimerUnit::Timer2 => InterruptFlag::Timer2,
            TimerUnit::Timer3 => InterruptFlag::Timer3,
        }
    }
}

/// A 16-bit timer: reload value (`cnt_l`), control (`cnt_h`: prescaler in
/// bits 1-0, count-up in bit 2, IRQ enable in bit 6, start in bit 7), the
/// running counter and the cycles not yet counted.
#[derive(Debug, Clone, Copy, PartialEq, Eq, Structural)]
pub struct Timer {
    pub cnt_l: u16,
    pub cnt_h: u16,
    pub unit: TimerUnit,
    pub counter: u16,
    pub divider: u32,
    pub overflow: bool,
    pub pending_irq: Option<InterruptFlag>,
}

impl View for Timer {
    type V = Timer;

    open spec fn view(&self) -> Timer {
        *self
    }
}

impl Timer {
    pub open spec fn spec_new(unit: TimerUnit) -> Timer {
        Timer {
            cnt_l: 0,
            cnt_h: 0,
            unit,
            counter: 0,
            divider: 0,
            overflow: false,
            pending_irq: None,
        }
    }

    pub open spec fn spec_irq_enable(self) -> bool {
        bit(self.cnt_h as u32, 6)
    }

    pub open spec fn spec_is_operating(self) -> bool {
        bit(self.cnt_h as u32, 7)
    }

    pub open spec fn spec_countup_timing(self) -> bool {
        bit(self.cnt_h as u32, 2)
    }

    /// Cycles per count: 1, 64, 256 or 1024 by the prescaler bits.
    pub open spec fn spec_clock_step(self) -> u32 {
        let p = field(self.cnt_h as u32, 0, 0x3);
        if p == 0 {
            1
        } else if p == 1 {
            64
        } else if p == 2 {
            256
        } else {
            1024
        }
    }

    /// One count: the counter goes up by one; past 0xFFFF it reloads from
    /// `cnt_l`, notes the overflow and, with the IRQ enabled, raises the
    /// unit's interrupt.
    pub open spec fn spec_increment(self) -> Timer {
        if self.counter == 0xFFFF {
            Timer {
                pending_irq: if self.spec_irq_enable() {
                    Some(self.unit.spec_interrupt())
                } else {
                    self.pending_irq
                },
                counter: self.cnt_l,
                overflow: true,
                ..self
            }
        } else {
            Timer { counter: (self.counter + 1) as u16, ..self }
        }
    }

    /// `n` counts.
    pub open spec fn spec_increments(self, n: nat) -> Timer
        decreases n,
    {
        if n == 0 {
            self
        } else {
            self.spec_increment().spec_increments((n - 1) as nat)
        }
    }

    /// Whether a tick of `cycles` fits the cycle accumulator.
    pub open spec fn tick_ok(self, cycles: u32) -> bool {
        self.spec_is_operating() && !self.spec_countup_timing() ==> self.divider + cycles
            <= u32::MAX
    }

    /// Timer state after `cycles` cycles, the previous timer having
    /// overflowed or not, and whether this timer overflowed: a stopped
    /// timer does nothing; a count-up timer counts once per overflow of
    /// the previous timer; otherwise it counts once per prescaler step of
    /// the accumulated cycles, keeping the remainder.
    pub open spec fn spec_tick(self, cycles: u32, prev_overflow: bool) -> (bool, Timer) {
        if !self.spec_is_operating() {
            (false, self)
        } else {
            let t = if self.spec_countup_timing() {
                if prev_overflow {
                    self.spec_increment()
                } else {
                    self
                }
            } else {
                let step = self.spec_clock_step();
                let d = self.divider + cycles;
                Timer { divider: (d % (step as int)) as u32, ..self.spec_increments((d / (step as int)) as nat) }
            };
            (t.overflow, Timer { overflow: false, ..t })
        }
    }

    pub fn new(unit: TimerUnit) -> (r: Timer)
        ensures
            r == Timer::spec_new(unit),
    {
        Timer {
            cnt_l: 0,
            cnt_h: 0,
            unit,
            counter: 0,
            divider: 0,
            overflow: false,
            pending_irq: None,
        }
    }

    /// Whether the overflow interrupt is enabled (bit 6).
    pub fn irq_enable(&self) -> (r: bool)
        ensures
            r == self.spec_irq_enable(),
    {
        is_set16(self.cnt_h, 6)
    }

    /// Whether the timer runs (bit 7).
    pub fn is_operating(&self) -> (r: bool)
        ensures
            r == self.spec_is_operating(),
    {
        is_set16(self.cnt_h, 7)
    }

    /// Whether the timer counts overflows of the previous timer (bit 2).
    pub fn countup_timing(&self) -> (r: bool)
        ensures
            r == self.spec_countup_timing(),
    {
        is_set16(self.cnt_h, 2)
    }

    /// Advances the timer by `cycles` cycles (see `spec_tick`).
    pub fn tick(&mut self, cycles: u32, prev_overflow: bool) -> (r: bool)
        requires
            old(self).tick_ok(cycles),
        ensures
            (r, *final(self)) == old(self).spec_tick(cycles, prev_overflow),
    {
        if !self.is_operating() {
            return false;
        }
        if self.countup_timing() {
            if prev_overflow {
                self.increment();
            }
        } else {
            let step = self.clock_step();
            let ghost t0 = *self;
            self.divider = self.divider + cycles;
            let ghost d = self.divider as int;
            let ghost mut k: nat = 0;
            while self.divider >= step
                invariant
                    step == t0.spec_clock_step(),
                    step >= 1,
                    self.divider + k * step == d,
                    (Timer { divider: 0, ..*self }) == (Timer { divider: 0, ..t0.spec_increments(k) }),
                decreases self.divider,
            {
                proof {
                    lemma_increments_step(t0, k);
                }
                self.increment();
                self.divider = self.divider - step;
                proof {
                    k = k + 1;
                    assert(self.divider + k * step == d) by (nonlinear_arith)
                        requires
                            self.divider + step + (k - 1) * step == d,
                    ;
                }
            }
            proof {
                vstd::arithmetic::div_mod::lemma_fundamental_div_mod_converse(
                    d,
                    step as int,
                    k as int,
                    self.divider as int,
                );
                assert(k * step == k as int * step as int);
            }
        }
        self.poll_overflow()
    }

    /// Takes the pending overflow interrupt.
    pub fn poll_interrupt(&mut self) -> (r: Option<InterruptFlag>)
        ensures
            r == old(self).pending_irq,
            *final(self) == (Timer { pending_irq: None, ..*old(self) }),
    {
        let r = self.pending_irq;
        self.pending_irq = None;
        r
    }

    /// One count (see `spec_increment`).
    pub fn increment(&mut self)
        ensures
            *final(self) == old(self).spec_increment(),
    {
        if self.counter == 0xFFFF {
            if self.irq_enable() {
                self.pending_irq = Some(self.unit.interrupt());
            }
            self.counter = self.cnt_l;
            self.overflow = true;
        } else {
            self.counter = self.counter + 1;
        }
    }

    /// Takes the overflow flag.
    pub fn poll_overflow(&mut self) -> (r: bool)
        ensures
            r == old(self).overflow,
            *final(self) == (Timer { overflow: false, ..*old(self) }),
    {
        let r = self.overflow;
        self.overflow = false;
        r
    }

    /// Cycles per count (see `spec_clock_step`).
    pub fn clock_step(&self) -> (r: u32)
        ensures
            r == self.spec_clock_step(),
    {
        let p = get_bits16(self.cnt_h, 0, 0x3);
        if p == 0 {
            1
        } else if p == 1 {
            64
        } else if p == 2 {
            256
        } else {
            1024
        }
    }
}

/// Counting never touches the control registers, the unit or the cycle
/// accumulator, and `n + 1` counts are one count followed by `n`.
proof fn lemma_increments_step(t: Timer, n: nat)
    ensures
        t.spec_increments(n + 1) == t.spec_increments(n).spec_increment(),
        t.spec_increments(n).cnt_h == t.cnt_h,
        t.spec_increments(n).cnt_l == t.cnt_l,
        t.spec_increments(n).unit == t.unit,
        t.spec_increments(n).divider == t.divider,
    decreases n,
{
    if n > 0 {
        lemma_increments_step(t.spec_increment(), (n - 1) as nat);
        assert(t.spec_increments(n + 1) == t.spec_increment().spec_increments(n));
        assert(t.spec_increments(n) == t.spec_increment().spec_increments((n - 1) as nat));
    } else {
        assert(t.spec_increments(1) == t.spec_increment().spec_increments(0));
    }
}

impl Bus for Timer {
    /// Bytes 0-1 read the counter, bytes 2-3 the control register.
    open spec fn spec_read_byte(v: Timer, address: u32) -> u8 {
        if address % 4 <= 1 {
            <u16 as Bus>::spec_read_byte(v.counter, address)
        } else {
            <u16 as Bus>::spec_read_byte(v.cnt_h, address)
        }
    }

    /// Bytes 0-1 write the reload value, bytes 2-3 the control register;
    /// a control write that leaves the timer running reloads the counter.
    open spec fn spec_write_byte(v: Timer, address: u32, value: u8) -> Timer {
        if address % 4 <= 1 {
            Timer { cnt_l: <u16 as Bus>::spec_write_byte(v.cnt_l, address, value), ..v }
        } else {
            let t = Timer { cnt_h: <u16 as Bus>::spec_write_byte(v.cnt_h, address, value), ..v };
            if t.spec_is_operating() {
                Timer { counter: t.cnt_l, ..t }
            } else {
                t
            }
        }
    }

    fn read_byte(&self, address: u32) -> (r: u8) {
        if address % 4 <= 1 {
            self.counter.read_byte(address)
        } else {
            self.cnt_h.read_byte(address)
        }
    }

    fn write_byte(&mut self, address: u32, value: u8) {
        if address % 4 <= 1 {
            self.cnt_l.write_byte(address, value);
        } else {
            self.cnt_h.write_byte(address, value);
            if self.is_operating() {
                self.counter = self.cnt_l;
            }
        }
    }
}

} // verus!
