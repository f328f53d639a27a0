use vstd::prelude::*;

use crate::bus::registers::interrupt::InterruptFlag;
use crate::utils::bits::{bit, get, is_set16};

verus! {

/// Key status (KEYINPUT: a clear bit is a pressed key) and key interrupt
/// control (KEYCNT: keys in bits 9-0, IRQ enable in bit 14, condition in bit 15).
#[derive(Debug, Clone, Copy, PartialEq, Eq, Structural)]
pub struct Keypad {
    pub keyinput: u16,
    pub keycnt: u16,
}

impl Default for Keypad {
    /// No key pressed, key interrupts off.
    fn default() -> (r: Keypad)
        ensures
            r == (Keypad { keyinput: 0x3FF, keycnt: 0 }),
    {
        Keypad { keyinput: 0x3FF, keycnt: 0 }
    }
}

/// Keys, in the order of their bits in the key registers.
#[derive(Debug, Clone, Copy, PartialEq, Eq, Structural)]
pub enum Key {
    ButtonA,
    ButtonB,
    Select,
    Start,
    Right,
    Left,
    Up,
    Down,
    ButtonR,
    ButtonL,
}

impl Key {
    pub open spec fn spec_bit(self) -> u32 {
        match self {
            Key::ButtonA => 0,
            Key::ButtonB => 1,
            Key::Select => 2,
            Key::Start => 3,
            Key::Right => 4,
            Key::Left => 5,
            Key::Up => 6,
            Key::Down => 7,
            Key::ButtonR => 8,
            Key::ButtonL => 9,
        }
    }

    /// The bit of the key in the key registers.
    pub fn bit(self) -> (r: u32)
        ensures
            r == self.spec_bit(),
            r < 10,
    {
        match self {
            Key::ButtonA => 0,
            Key::ButtonB => 1,
            Key::Select => 2,
            Key::Start => 3,
            Key::Right => 4,
            Key::Left => 5,
            Key::Up => 6,
            Key::Down => 7,
            Key::ButtonR => 8,
            Key::ButtonL => 9,
        }
    }
}

/// How the key status and the selected keys combine into the key
/// interrupt (see `Keypad::spec_poll_interrupt`): `Or` combines them with a
/// bitwise or, which is never zero since the complemented key status has its
/// bits above the ten keys set, so an enabled `Or` interrupt always fires;
/// `And` fires when any selected key is pressed.
#[derive(Debug, Clone, Copy, PartialEq, Eq, Structural)]
pub enum KeyIrqCondition {
    Or,
    And,
}

impl Keypad {
    pub open spec fn spec_irq_enable(self) -> bool {
        bit(self.keycnt as u32, 14)
    }

    pub open spec fn spec_irq_condition(self) -> KeyIrqCondition {
        if bit(self.keycnt as u32, 15) {
            KeyIrqCondition::And
        } else {
            KeyIrqCondition::Or
        }
    }

    /// The key interrupt requested by the current key state: with the
    /// interrupt enabled, the complement of the key bits is combined with
    /// the selected keys by the condition.
    pub open spec fn spec_poll_interrupt(self) -> Option<InterruptFlag> {
        let keyinput = !(self.keyinput & 0x3FF);
        let keycnt = self.keycnt & 0x3FF;
        let fire = match self.spec_irq_condition() {
            KeyIrqCondition::Or => (keyinput | keycnt) != 0,
            KeyIrqCondition::And => (keyinput & keycnt) != 0,
        };
        if self.spec_irq_enable() && fire {
            Some(InterruptFlag::Keypad)
        } else {
            None
        }
    }

    pub fn poll_interrupt(&self) -> (r: Option<InterruptFlag>)
        ensures
            r == self.spec_poll_interrupt(),
    {
        if !self.irq_enable() {
            return None;
        }
        let keyinput = !(self.keyinput & 0x3FF);
        let keycnt = self.keycnt & 0x3FF;
        let result = match self.irq_condition() {
            KeyIrqCondition::Or => (keyinput | keycnt) != 0,
            KeyIrqCondition::And => (keyinput & keycnt) != 0,
        };
        if result {
            Some(InterruptFlag::Keypad)
        } else {
            None
        }
    }

    /// Whether the key interrupt is enabled (KEYCNT bit 14).
    pub fn irq_enable(&self) -> (r: bool)
        ensures
            r == self.spec_irq_enable(),
    {
        is_set16(self.keycnt, 14)
    }

    /// The key interrupt condition (KEYCNT bit 15).
    pub fn irq_condition(&self) -> (r: KeyIrqCondition)
        ensures
            r == self.spec_irq_condition(),
    {
        if get(self.keycnt as u32, 15) == 0 {
            KeyIrqCondition::Or
        } else {
            KeyIrqCondition::And
        }
    }
}

} // verus!
