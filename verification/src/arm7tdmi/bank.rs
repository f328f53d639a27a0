use vstd::prelude::*;

use crate::arm7tdmi::common::OperatingMode;
use crate::arm7tdmi::psr::Psr;

verus! {

/// Banked registers: R8-R14 of FIQ mode, R13-R14 of the other privileged
/// exception modes, and the saved status register of each exception mode.
#[derive(Debug)]
pub struct Bank {
    pub fiq: [u32; 7],
    pub svc: [u32; 2],
    pub abt: [u32; 2],
    pub irq: [u32; 2],
    pub und: [u32; 2],
    pub psr: [Psr; 5],
}

/// Mathematical model of the banked registers.
pub struct BankView {
    pub fiq: Seq<u32>,
    pub svc: Seq<u32>,
    pub abt: Seq<u32>,
    pub irq: Seq<u32>,
    pub und: Seq<u32>,
    pub psr: Seq<Psr>,
}

impl View for Bank {
    type V = BankView;

    open spec fn view(&self) -> BankView {
        BankView {
            fiq: self.fiq@,
            svc: self.svc@,
            abt: self.abt@,
            irq: self.irq@,
            und: self.und@,
            psr: self.psr@,
        }
    }
}

/// Index of the saved status register of an exception mode.
pub open spec fn spsr_index(mode: OperatingMode) -> Option<int> {
    match mode {
        OperatingMode::FIQ => Some(0),
        OperatingMode::SVC => Some(1),
        OperatingMode::ABT => Some(2),
        OperatingMode::IRQ => Some(3),
        OperatingMode::UND => Some(4),
        _ => None,
    }
}

/// Whether register `index` is banked in `mode`.
pub open spec fn is_banked(mode: OperatingMode, index: int) -> bool {
    match mode {
        OperatingMode::FIQ => 8 <= index <= 14,
        OperatingMode::SVC | OperatingMode::ABT | OperatingMode::IRQ | OperatingMode::UND => 13
            <= index <= 14,
        _ => false,
    }
}

impl BankView {
    pub open spec fn wf(self) -> bool {
        &&& self.fiq.len() == 7
        &&& self.svc.len() == 2
        &&& self.abt.len() == 2
        &&& self.irq.len() == 2
        &&& self.und.len() == 2
        &&& self.psr.len() == 5
    }

    /// The banked copy of register `index` in `mode`, if it is banked.
    pub open spec fn get_reg(self, mode: OperatingMode, index: int) -> Option<u32> {
        if !is_banked(mode, index) {
            None
        } else {
            match mode {
                OperatingMode::FIQ => Some(self.fiq[index - 8]),
                OperatingMode::SVC => Some(self.svc[index - 13]),
                OperatingMode::ABT => Some(self.abt[index - 13]),
                OperatingMode::IRQ => Some(self.irq[index - 13]),
                _ => Some(self.und[index - 13]),
            }
        }
    }

    /// The banked registers with the copy of register `index` in `mode` set to `value`.
    pub open spec fn set_reg(self, mode: OperatingMode, index: int, value: u32) -> BankView {
        if !is_banked(mode, index) {
            self
        } else {
            match mode {
                OperatingMode::FIQ => BankView { fiq: self.fiq.update(index - 8, value), ..self },
                OperatingMode::SVC => BankView { svc: self.svc.update(index - 13, value), ..self },
                OperatingMode::ABT => BankView { abt: self.abt.update(index - 13, value), ..self },
                OperatingMode::IRQ => BankView { irq: self.irq.update(index - 13, value), ..self },
                _ => BankView { und: self.und.update(index - 13, value), ..self },
            }
        }
    }

    /// The banked registers with the registers that `mode` banks replaced by `regs`.
    pub open spec fn with_bank(self, mode: OperatingMode, regs: Seq<u32>) -> BankView {
        match mode {
            OperatingMode::FIQ => BankView { fiq: regs, ..self },
            OperatingMode::SVC => BankView { svc: regs, ..self },
            OperatingMode::ABT => BankView { abt: regs, ..self },
            OperatingMode::IRQ => BankView { irq: regs, ..self },
            OperatingMode::UND => BankView { und: regs, ..self },
            _ => self,
        }
    }

    pub open spec fn get_spsr(self, mode: OperatingMode) -> Option<Psr> {
        match spsr_index(mode) {
            Some(i) => Some(self.psr[i]),
            None => None,
        }
    }

    pub open spec fn set_spsr(self, mode: OperatingMode, psr: Psr) -> BankView {
        match spsr_index(mode) {
            Some(i) => BankView { psr: self.psr.update(i, psr), ..self },
            None => self,
        }
    }
}

impl Bank {
    /// The banked copy of register `index` in `op_mode`, if it is banked.
    pub fn get_reg(&self, op_mode: OperatingMode, index: usize) -> (r: Option<u32>)
        ensures
            r == self@.get_reg(op_mode, index as int),
    {
        match self.get_bank(op_mode) {
            Some((slice, offset)) => if index >= offset && index <= 14 {
                Some(slice[index - offset])
            } else {
                None
            },
            None => None,
        }
    }

    /// The registers that `op_mode` banks, with the number of the first.
    fn get_bank(&self, op_mode: OperatingMode) -> (r: Option<(&[u32], usize)>)
        ensures
            r matches Some((slice, offset)) ==> {
                &&& offset == 8 <==> op_mode is FIQ
                &&& offset == 8 || offset == 13
                &&& slice@.len() == 15 - offset
                &&& forall|i: int| offset <= i < 15 ==> Some(#[trigger] slice@[i - offset]) == self@.get_reg(op_mode, i)
            },
            r is None <==> spsr_index(op_mode) is None,
    {
        broadcast use vstd::array::group_array_axioms;
        match op_mode {
            OperatingMode::FIQ => Some((self.fiq.as_slice(), 8)),
            OperatingMode::SVC => Some((self.svc.as_slice(), 13)),
            OperatingMode::ABT => Some((self.abt.as_slice(), 13)),
            OperatingMode::IRQ => Some((self.irq.as_slice(), 13)),
            OperatingMode::UND => Some((self.und.as_slice(), 13)),
            _ => None,
        }
    }

    /// The registers that `op_mode` banks, for writing, with the number of
    /// the first.
    fn get_bank_mut(&mut self, op_mode: OperatingMode) -> (r: Option<(&mut [u32], usize)>)
        ensures
            r matches Some((slice, offset)) ==> {
                &&& offset == 8 <==> op_mode is FIQ
                &&& offset == 8 || offset == 13
                &&& slice@.len() == 15 - offset
                &&& forall|i: int|
                    offset <= i < 15 ==> Some(#[trigger] slice@[i - offset]) == old(self)@.get_reg(
                        op_mode,
                        i,
                    )
                &&& old(self)@.with_bank(op_mode, slice@) == old(self)@
                &&& final(self)@ == old(self)@.with_bank(op_mode, final(slice)@)
            },
            r is None <==> spsr_index(op_mode) is None,
            r is None ==> final(self)@ == old(self)@,
    {
        match op_mode {
            OperatingMode::FIQ => Some((&mut self.fiq, 8)),
            OperatingMode::SVC => Some((&mut self.svc, 13)),
            OperatingMode::ABT => Some((&mut self.abt, 13)),
            OperatingMode::IRQ => Some((&mut self.irq, 13)),
            OperatingMode::UND => Some((&mut self.und, 13)),
            _ => None,
        }
    }

    /// A mutable reference to banked register `index` of mode `op_mode`,
    /// if the mode banks it.
    pub fn get_reg_mut(&mut self, op_mode: OperatingMode, index: usize) -> (r: Option<&mut u32>)
        ensures
            r is Some == is_banked(op_mode, index as int),
            r matches Some(x) ==> Some(*x) == old(self)@.get_reg(op_mode, index as int)
                && final(self)@ == old(self)@.set_reg(op_mode, index as int, *final(x)),
            r is None ==> final(self)@ == old(self)@,
    {
        match self.get_bank_mut(op_mode) {
            Some((slice, offset)) => if index >= offset && index <= 14 {
                assert(Some(slice@[index - offset]) == old(self)@.get_reg(op_mode, index as int));
                Some(&mut slice[index - offset])
            } else {
                None
            },
            None => None,
        }
    }

    /// The saved status register of `op_mode`, if the mode has one.
    pub fn get_spsr(&self, op_mode: OperatingMode) -> (r: Option<Psr>)
        ensures
            r == self@.get_spsr(op_mode),
    {
        match self.operating_mode_index(op_mode) {
            Some(index) => Some(self.psr[index]),
            None => None,
        }
    }

    /// The saved status register of an exception mode.
    pub fn get_spsr_unchecked(&self, op_mode: OperatingMode) -> (r: Psr)
        requires
            spsr_index(op_mode) is Some,
        ensures
            self@.get_spsr(op_mode) == Some(r),
    {
        match self.get_spsr(op_mode) {
            Some(psr) => psr,
            None => Psr(0),
        }
    }

    /// Writes the saved status register of `op_mode`, if the mode has one.
    pub fn set_spsr(&mut self, op_mode: OperatingMode, psr: Psr)
        ensures
            final(self)@ == old(self)@.set_spsr(op_mode, psr),
    {
        if let Some(index) = self.operating_mode_index(op_mode) {
            self.psr[index] = psr;
        }
    }

    /// Replaces the bits of `mask` in the saved status register of `op_mode`
    /// (if the mode has one): the new value is `(spsr & !mask) | fields`.
    pub fn update_spsr(&mut self, op_mode: OperatingMode, fields: u32, mask: u32)
        ensures
            final(self)@ == (match old(self)@.get_spsr(op_mode) {
                Some(psr) => old(self)@.set_spsr(op_mode, Psr((psr.0 & !mask) | fields)),
                None => old(self)@,
            }),
    {
        if let Some(index) = self.operating_mode_index(op_mode) {
            let psr = self.psr[index];
            let value = (psr.value() & !mask) | fields;
            self.psr[index] = Psr::from(value);
        }
    }

    /// Index of the saved status register of `op_mode`, if the mode has one.
    pub fn operating_mode_index(&self, op_mode: OperatingMode) -> (r: Option<usize>)
        ensures
            r matches Some(i) ==> i < 5 && spsr_index(op_mode) == Some(i as int),
            r is None ==> spsr_index(op_mode) is None,
    {
        match op_mode {
            OperatingMode::FIQ => Some(0),
            OperatingMode::SVC => Some(1),
            OperatingMode::ABT => Some(2),
            OperatingMode::IRQ => Some(3),
            OperatingMode::UND => Some(4),
            _ => None,
        }
    }
}

impl Default for Bank {
    fn default() -> (r: Bank)
        ensures
            r@.fiq == Seq::new(7, |i: int| 0u32),
            r@.svc == Seq::new(2, |i: int| 0u32),
            r@.abt == Seq::new(2, |i: int| 0u32),
            r@.irq == Seq::new(2, |i: int| 0u32),
            r@.und == Seq::new(2, |i: int| 0u32),
            r@.psr == Seq::new(5, |i: int| Psr(0)),
    {
        let r = Bank {
            fiq: [0; 7],
            svc: [0; 2],
            abt: [0; 2],
            irq: [0; 2],
            und: [0; 2],
            psr: [Psr(0), Psr(0), Psr(0), Psr(0), Psr(0)],
        };
        assert(r@.fiq =~= Seq::new(7, |i: int| 0u32));
        assert(r@.svc =~= Seq::new(2, |i: int| 0u32));
        assert(r@.abt =~= Seq::new(2, |i: int| 0u32));
        assert(r@.irq =~= Seq::new(2, |i: int| 0u32));
        assert(r@.und =~= Seq::new(2, |i: int| 0u32));
        assert(r@.psr =~= Seq::new(5, |i: int| Psr(0)));
        r
    }
}

} // verus!
