pub mod arm;
pub mod bank;
pub mod common;
pub mod isa;
pub mod ops;
pub mod pipeline;
pub mod properties;
pub mod psr;
pub mod thumb;

use vstd::prelude::*;

use crate::arm7tdmi::bank::{Bank, BankView, is_banked};
use crate::arm7tdmi::common::{AddrMode, Cycle, DataType, Operand, OperandKind, OperatingMode, Shift, ShiftKind};
use crate::arm7tdmi::isa::lemma_exec_cycles_bounded;
use crate::arm7tdmi::pipeline::{Pipeline, pipeline_loadable, spec_load_pipeline};
use crate::arm7tdmi::psr::Psr;
use crate::bus::memory::{Bus, read_word, spec_read_word, spec_write_word, write_word};
use crate::utils::bits::{bit, with_bit};

verus! {

/// The ARM7TDMI processor: the user-mode register file R0-R15, the banked
/// registers, the current status register, the fetch/decode pipeline and
/// the bus it is connected to.
pub struct Arm7tdmi<B: Bus> {
    pub reg: [u32; 16],
    pub bank: Bank,
    pub cpsr: Psr,
    pub pipeline: Pipeline,
    pub cycles: u64,
    pub bus: B,
}

/// Mathematical model of the processor.
pub struct CpuView<V> {
    pub reg: Seq<u32>,
    pub bank: BankView,
    pub cpsr: Psr,
    pub pipeline: Pipeline,
    pub cycles: u64,
    pub bus: V,
}

impl<B: Bus> View for Arm7tdmi<B> {
    type V = CpuView<B::V>;

    open spec fn view(&self) -> CpuView<B::V> {
        CpuView {
            reg: self.reg@,
            bank: self.bank@,
            cpsr: self.cpsr,
            pipeline: self.pipeline,
            cycles: self.cycles,
            bus: self.bus@,
        }
    }
}

pub const PC: usize = 15;

pub const LR: usize = 14;

pub const SP: usize = 13;

impl<V> CpuView<V> {
    /// Register file and banks have their sizes, the mode bits name a mode
    /// and the instruction waiting in the pipeline is well formed.
    pub open spec fn wf(self) -> bool {
        &&& self.wf_regs()
        &&& self.pipeline.curr_instr matches Some(i) ==> i.wf()
    }

    /// Register file and banks have their sizes and the mode bits name a mode.
    pub open spec fn wf_regs(self) -> bool {
        &&& self.reg.len() == 16
        &&& self.bank.wf()
        &&& self.cpsr.has_valid_mode()
    }

    pub open spec fn mode(self) -> OperatingMode {
        self.cpsr.spec_operating_mode()
    }

    pub open spec fn thumb(self) -> bool {
        self.cpsr.spec_thumb()
    }

    /// Register `i` as seen in the current mode.
    pub open spec fn get_reg(self, i: int) -> u32 {
        match self.bank.get_reg(self.mode(), i) {
            Some(v) => v,
            None => self.reg[i],
        }
    }

    /// The state with register `i`, as seen in the current mode, set to `v`.
    pub open spec fn set_reg(self, i: int, v: u32) -> CpuView<V> {
        if is_banked(self.mode(), i) {
            CpuView { bank: self.bank.set_reg(self.mode(), i, v), ..self }
        } else {
            CpuView { reg: self.reg.update(i, v), ..self }
        }
    }

    pub open spec fn pc(self) -> u32 {
        self.reg[15]
    }

    pub open spec fn set_pc(self, v: u32) -> CpuView<V> {
        CpuView { reg: self.reg.update(15, v), ..self }
    }

    pub open spec fn with_cpsr(self, cpsr: Psr) -> CpuView<V> {
        CpuView { cpsr, ..self }
    }

    pub open spec fn with_bus(self, bus: V) -> CpuView<V> {
        CpuView { bus, ..self }
    }

    pub open spec fn with_pipeline(self, pipeline: Pipeline) -> CpuView<V> {
        CpuView { pipeline, ..self }
    }

    pub open spec fn carry(self) -> bool {
        self.cpsr.flag(29)
    }

    pub open spec fn with_flag(self, n: u32, b: bool) -> CpuView<V> {
        CpuView { cpsr: Psr(with_bit(self.cpsr.0, n, b)), ..self }
    }

    /// Size in bytes of an instruction in the current state.
    pub open spec fn instr_size(self) -> u32 {
        if self.thumb() {
            2
        } else {
            4
        }
    }

    /// Value of an operand before its shift: the immediate, or the register.
    pub open spec fn base_operand(self, op: Operand) -> u32 {
        if op.kind is Imm {
            op.value
        } else {
            self.get_reg(op.value as int)
        }
    }
}

/// Change of the carry flag that a shift calls for.
#[derive(Debug, Clone, Copy, PartialEq, Eq, Structural)]
pub enum CarryUpdate {
    Unchanged,
    Clear,
    /// The carry becomes bit `b & 31` of the shifted value.
    Bit(u32),
}

/// Result of the barrel shifter and the change of carry it calls for.
/// `imm` marks an immediate shift amount, for which an amount of 0 encodes
/// LSR #32, ASR #32 and RRX (rotate right through carry `c`). A shift by
/// 1-31 takes the carry from bit `amount - 1` of the shifted value, in
/// every direction; LSL #32 takes it from bit 0 and LSR #32, ASR #32 from
/// bit 31; longer logical shifts clear it.
pub open spec fn spec_shift(lhs: u32, rhs: u32, kind: ShiftKind, imm: bool, update: bool, c: bool) -> (
    u32,
    CarryUpdate,
) {
    match kind {
        ShiftKind::LSL => if rhs >= 33 && update {
            (0, CarryUpdate::Clear)
        } else if rhs == 32 {
            (0, CarryUpdate::Bit(0))
        } else if rhs >= 1 {
            (lhs.wrapping_shl(rhs), CarryUpdate::Bit((rhs - 1) as u32))
        } else {
            (lhs, CarryUpdate::Unchanged)
        },
        ShiftKind::LSR => if rhs >= 33 && update {
            (0, CarryUpdate::Clear)
        } else if rhs == 32 {
            (0, CarryUpdate::Bit(31))
        } else if rhs >= 1 {
            (lhs.wrapping_shr(rhs), CarryUpdate::Bit((rhs - 1) as u32))
        } else if imm {
            (0, CarryUpdate::Bit(31))
        } else {
            (lhs, CarryUpdate::Unchanged)
        },
        ShiftKind::ASR => if rhs == 32 {
            (crate::utils::ops::spec_extended_asr(lhs, rhs), CarryUpdate::Bit(31))
        } else if rhs >= 1 {
            (crate::utils::ops::spec_extended_asr(lhs, rhs), CarryUpdate::Bit((rhs - 1) as u32))
        } else if imm {
            (crate::utils::ops::spec_extended_asr(lhs, 31), CarryUpdate::Bit(31))
        } else {
            (lhs, CarryUpdate::Unchanged)
        },
        ShiftKind::ROR => if rhs >= 1 {
            (crate::utils::ops::spec_ror(lhs, rhs), CarryUpdate::Bit((rhs - 1) as u32))
        } else if imm {
            (((if c { 1u32 } else { 0u32 }) << 31u32) | (lhs >> 1u32), CarryUpdate::Bit(0))
        } else {
            (lhs, CarryUpdate::Unchanged)
        },
    }
}

impl<V> CpuView<V> {
    /// The state after the carry change `cu` of a shift of `lhs`, when flags are updated.
    pub open spec fn apply_carry(self, lhs: u32, cu: CarryUpdate, update: bool) -> CpuView<V> {
        if !update {
            self
        } else {
            match cu {
                CarryUpdate::Unchanged => self,
                CarryUpdate::Clear => self.with_flag(29, false),
                CarryUpdate::Bit(b) => self.with_flag(29, bit(lhs, b & 31)),
            }
        }
    }

    /// Value of an operand (shifted, then negated when asked) and the state
    /// after the shift, whose carry changes when `update` is set.
    pub open spec fn operand_eval(self, op: Operand, update: bool) -> (u32, CpuView<V>) {
        let (v, s) = match op.shift {
            Some(sh) => {
                let lhs = if op.spec_is_pc() && sh.register {
                    self.pc().wrapping_add(4)
                } else {
                    self.base_operand(op)
                };
                let rhs = if sh.register {
                    self.get_reg(sh.value as int)
                } else {
                    sh.value as u32
                };
                let (res, cu) = spec_shift(lhs, rhs, sh.kind, !sh.register, update, self.carry());
                (res, self.apply_carry(lhs, cu, update))
            },
            None => (self.base_operand(op), self),
        };
        (if op.negate { !v } else { v }, s)
    }

    /// Lowest address of a block transfer of `n` registers from base register `rb`.
    pub open spec fn lowest_address(self, rb: int, n: u8, amod: AddrMode) -> u32 {
        let base = self.get_reg(rb);
        match amod {
            AddrMode::IA => base,
            AddrMode::IB => base.wrapping_add(4),
            AddrMode::DA => base.wrapping_sub((4 * (if n == 0 { 0 } else { n - 1 })) as u32),
            AddrMode::DB => base.wrapping_sub((4 * n) as u32),
        }
    }

    /// Base register value after a block transfer of `n` registers
    /// (an empty list moves the base by 64).
    pub open spec fn base_after(self, rb: int, n: u8, amod: AddrMode) -> u32 {
        let base = self.get_reg(rb);
        if n == 0 {
            match amod {
                AddrMode::IA | AddrMode::IB => base.wrapping_add(64),
                _ => base.wrapping_sub(64),
            }
        } else {
            match amod {
                AddrMode::IA | AddrMode::IB => base.wrapping_add((4 * n) as u32),
                _ => base.wrapping_sub((4 * n) as u32),
            }
        }
    }
}

impl<B: Bus> Arm7tdmi<B> {
    pub open spec fn wf(&self) -> bool {
        self@.wf()
    }

    /// A processor in its power-on state (all registers and status bits clear),
    /// connected to `bus`.
    pub fn new(bus: B) -> (r: Arm7tdmi<B>)
        ensures
            r@.reg == Seq::new(16, |i: int| 0u32),
            r.bank@.fiq == Seq::new(7, |i: int| 0u32),
            r.bank@.svc == Seq::new(2, |i: int| 0u32),
            r.bank@.abt == Seq::new(2, |i: int| 0u32),
            r.bank@.irq == Seq::new(2, |i: int| 0u32),
            r.bank@.und == Seq::new(2, |i: int| 0u32),
            r.bank@.psr == Seq::new(5, |i: int| Psr(0)),
            r.cpsr == Psr(0),
            r.pipeline == Pipeline::spec_default(),
            r.cycles == 0,
            r.bus == bus,
    {
        let r = Arm7tdmi {
            reg: [0; 16],
            bank: Bank::default(),
            cpsr: Psr::default(),
            pipeline: Pipeline::default(),
            cycles: 0,
            bus,
        };
        assert(r@.reg =~= Seq::new(16, |i: int| 0u32));
        r
    }

    pub fn pc(&self) -> (r: u32)
        ensures
            r == self@.pc(),
    {
        self.reg[PC]
    }

    pub fn set_pc(&mut self, value: u32)
        ensures
            final(self)@ == old(self)@.set_pc(value),
    {
        self.reg[PC] = value;
    }

    /// Moves the program counter by `offset` bytes (wrapping).
    pub fn shift_pc(&mut self, offset: i32)
        ensures
            final(self)@ == old(self)@.set_pc(old(self)@.pc().wrapping_add_signed(offset)),
    {
        self.reg[PC] = self.reg[PC].wrapping_add_signed(offset);
    }

    /// Clears the low bits of the program counter: bit 0 in THUMB state,
    /// bits 1-0 in ARM state.
    pub fn align_pc(&mut self)
        ensures
            final(self)@ == old(self)@.set_pc(
                if old(self)@.thumb() {
                    old(self)@.pc() & !1u32
                } else {
                    old(self)@.pc() & !3u32
                },
            ),
    {
        let mask = if self.cpsr.thumb() {
            !1u32
        } else {
            !3u32
        };
        let value = self.pc() & mask;
        self.set_pc(value);
    }

    /// Size in bytes of an instruction in the current state.
    pub fn instr_size(&self) -> (r: u8)
        ensures
            r == self@.instr_size(),
    {
        if self.cpsr.thumb() {
            2
        } else {
            4
        }
    }

    /// Register `index` as seen in the current mode.
    pub fn get_reg(&self, index: usize) -> (r: u32)
        requires
            self@.wf_regs(),
            index < 16,
        ensures
            r == self@.get_reg(index as int),
    {
        let mode = self.cpsr.operating_mode();
        match self.bank.get_reg(mode, index) {
            Some(v) => v,
            None => self.reg[index],
        }
    }

    /// A mutable reference to register `index` as seen in the current mode.
    pub fn get_reg_mut(&mut self, index: usize) -> (r: &mut u32)
        requires
            old(self)@.wf_regs(),
            index < 16,
        ensures
            *r == old(self)@.get_reg(index as int),
            final(self)@ == old(self)@.set_reg(index as int, *final(r)),
    {
        let mode = self.cpsr.operating_mode();
        match self.bank.get_reg_mut(mode, index) {
            Some(x) => x,
            None => &mut self.reg[index],
        }
    }

    /// Writes register `index` as seen in the current mode.
    pub fn set_reg(&mut self, index: usize, value: u32)
        requires
            old(self)@.wf_regs(),
            index < 16,
        ensures
            final(self)@ == old(self)@.set_reg(index as int, value),
    {
        *self.get_reg_mut(index) = value;
    }

    /// Writes the stack pointer of the current mode.
    pub fn set_sp(&mut self, value: u32)
        requires
            old(self).wf(),
        ensures
            final(self)@ == old(self)@.set_reg(13, value),
    {
        self.set_reg(SP, value);
    }

    /// Value of an operand before its shift: the immediate, or the register.
    pub fn get_base_operand(&self, operand: &Operand) -> (r: u32)
        requires
            self.wf(),
            operand.wf(),
        ensures
            r == self@.base_operand(*operand),
    {
        match operand.kind {
            OperandKind::Imm => operand.value,
            _ => self.get_reg(operand.value as usize),
        }
    }

    /// Value of an operand, shifted and negated; the shift changes the
    /// carry flag when `update` is set.
    pub fn get_operand_with_shift(&mut self, operand: Operand, update: bool) -> (r: u32)
        requires
            old(self).wf(),
            operand.wf(),
        ensures
            (r, final(self)@) == old(self)@.operand_eval(operand, update),
            final(self).wf(),
    {
        let value = match operand.shift {
            Some(shift) => self.apply_operand_shift(&operand, shift, update),
            None => self.get_base_operand(&operand),
        };
        if operand.negate {
            !value
        } else {
            value
        }
    }

    /// Value of an operand, shifted and negated, leaving the flags alone.
    pub fn get_operand(&mut self, operand: Operand) -> (r: u32)
        requires
            old(self).wf(),
            operand.wf(),
        ensures
            (r, final(self)@) == old(self)@.operand_eval(operand, false),
            final(self)@ == old(self)@,
            final(self).wf(),
    {
        self.get_operand_with_shift(operand, false)
    }

    /// Applies the shift of an operand to the operand's value.
    pub fn apply_operand_shift(&mut self, operand: &Operand, shift: Shift, update: bool) -> (r: u32)
        requires
            old(self).wf(),
            operand.wf(),
            operand.shift == Some(shift),
        ensures
            ({
                let (v, s) = old(self)@.operand_eval(Operand { negate: false, ..*operand }, update);
                r == v && final(self)@ == s
            }),
            final(self).wf(),
    {
        let lhs = if operand.is_pc() && shift.register {
            self.pc().wrapping_add(4)
        } else {
            self.get_base_operand(operand)
        };
        let rhs = if shift.register {
            self.get_reg(shift.value as usize)
        } else {
            shift.value as u32
        };
        self.apply_shift(lhs, rhs, shift.kind, !shift.register, update)
    }

    /// Barrel shifter: shifts `lhs` by `rhs` and, when `update` is set,
    /// sets the carry flag to the last bit shifted out.
    pub fn apply_shift(&mut self, lhs: u32, rhs: u32, shift: ShiftKind, imm: bool, update: bool) -> (r: u32)
        ensures
            ({
                let (res, cu) = spec_shift(lhs, rhs, shift, imm, update, old(self)@.carry());
                r == res && final(self)@ == old(self)@.apply_carry(lhs, cu, update)
            }),
            final(self)@.cpsr.spec_mode_bits() == old(self)@.cpsr.spec_mode_bits(),
    {
        proof {
            crate::utils::bits::lemma_and_le(rhs, 31);
        }
        let (result, carry) = match shift {
            ShiftKind::LSL => if rhs >= 33 && update {
                (0, CarryUpdate::Clear)
            } else if rhs == 32 {
                (0, CarryUpdate::Bit(0))
            } else if rhs >= 1 {
                (lhs.wrapping_shl(rhs), CarryUpdate::Bit(rhs - 1))
            } else {
                (lhs, CarryUpdate::Unchanged)
            },
            ShiftKind::LSR => if rhs >= 33 && update {
                (0, CarryUpdate::Clear)
            } else if rhs == 32 {
                (0, CarryUpdate::Bit(31))
            } else if rhs >= 1 {
                (lhs.wrapping_shr(rhs), CarryUpdate::Bit(rhs - 1))
            } else if imm {
                (0, CarryUpdate::Bit(31))
            } else {
                (lhs, CarryUpdate::Unchanged)
            },
            ShiftKind::ASR => if rhs == 32 {
                (crate::utils::ops::extended_asr(lhs, rhs), CarryUpdate::Bit(31))
            } else if rhs >= 1 {
                (crate::utils::ops::extended_asr(lhs, rhs), CarryUpdate::Bit(rhs - 1))
            } else if imm {
                (crate::utils::ops::extended_asr(lhs, 31), CarryUpdate::Bit(31))
            } else {
                (lhs, CarryUpdate::Unchanged)
            },
            ShiftKind::ROR => if rhs >= 1 {
                (crate::utils::ops::rotate_right(lhs, rhs), CarryUpdate::Bit(rhs - 1))
            } else if imm {
                ((self.cpsr.get(29) << 31u32) | (lhs >> 1u32), CarryUpdate::Bit(0))
            } else {
                (lhs, CarryUpdate::Unchanged)
            },
        };
        proof {
            if shift is ROR && rhs == 0 && imm {
                let c = old(self)@.carry();
                let g: u32 = if c { 1 } else { 0 };
                assert(((if c { 1u32 } else { 0u32 }) << 31u32) == (g << 31u32));
            }
        }
        if update {
            match carry {
                CarryUpdate::Clear => self.cpsr.update(29, false),
                CarryUpdate::Bit(b) => {
                    proof {
                        crate::utils::bits::lemma_and_le(b, 31);
                    }
                    let c = crate::utils::bits::is_set(lhs, b & 31);
                    self.cpsr.update(29, c);
                },
                CarryUpdate::Unchanged => {},
            }
        }
        result
    }

    /// Number of registers in a register list.
    pub fn count_rlist(&self, rlist: u16) -> (r: u8)
        ensures
            r == rlist_count(rlist as u32, 16),
            r <= 16,
    {
        let mut count: u8 = 0;
        let mut i: u32 = 0;
        while i < 16
            invariant
                i <= 16,
                count == rlist_count(rlist as u32, i as int),
                count <= i,
            decreases 16 - i,
        {
            if crate::utils::bits::is_set(rlist as u32, i) {
                count = count + 1;
            }
            i = i + 1;
        }
        count
    }

    /// Lowest address of a block transfer of `n` registers from base register `rb`.
    pub fn get_lowest_address(&self, rb: usize, n: u8, amod: AddrMode) -> (r: u32)
        requires
            self.wf(),
            rb < 16,
            n <= 16,
        ensures
            r == self@.lowest_address(rb as int, n, amod),
    {
        let base = self.get_reg(rb);
        match amod {
            AddrMode::IA => base,
            AddrMode::IB => base.wrapping_add(4),
            AddrMode::DA => base.wrapping_sub(4 * (if n == 0 { 0 } else { n - 1 }) as u32),
            AddrMode::DB => base.wrapping_sub(4 * n as u32),
        }
    }

    /// Writes back the base register of a block transfer of `n` registers.
    pub fn write_base_address(&mut self, rb: usize, n: u8, amod: AddrMode)
        requires
            old(self).wf(),
            rb < 16,
            n <= 16,
        ensures
            final(self)@ == old(self)@.set_reg(rb as int, old(self)@.base_after(rb as int, n, amod)),
    {
        let base = self.get_reg(rb);
        let value = if n == 0 {
            match amod {
                AddrMode::IA | AddrMode::IB => base.wrapping_add(64),
                _ => base.wrapping_sub(64),
            }
        } else {
            match amod {
                AddrMode::IA | AddrMode::IB => base.wrapping_add(4 * n as u32),
                _ => base.wrapping_sub(4 * n as u32),
            }
        };
        self.set_reg(rb, value);
    }

    /// Writes the stored value of register `rs` at `*addr` and advances `*addr` by 4.
    /// PC is stored as PC + 4; with `usr` the user-mode register file is read.
    pub fn store_reg(&mut self, rs: usize, addr: &mut u32, usr: bool)
        requires
            old(self).wf(),
            rs < 16,
        ensures
            final(self)@ == old(self)@.with_bus(
                spec_write_word::<B>(old(self)@.bus, *old(addr), old(self)@.stored_value(rs as int, usr)),
            ),
            *final(addr) == (*old(addr)).wrapping_add(4),
    {
        let value = if rs == PC {
            self.pc().wrapping_add(4)
        } else if usr {
            self.reg[rs]
        } else {
            self.get_reg(rs)
        };
        write_word(&mut self.bus, *addr, value);
        *addr = (*addr).wrapping_add(4);
    }

    /// Loads register `rd` from `*offset` and advances `*offset` by 4; with
    /// `usr` the user-mode register file is written.
    pub fn load_reg(&mut self, rd: usize, offset: &mut u32, usr: bool)
        requires
            old(self).wf(),
            rd < 16,
        ensures
            final(self)@ == old(self)@.load_value(rd as int, spec_read_word::<B>(old(self)@.bus, *old(offset)), usr),
            *final(offset) == (*old(offset)).wrapping_add(4),
    {
        let value = read_word(&self.bus, *offset);
        if usr {
            self.reg[rd] = value;
        } else {
            self.set_reg(rd, value);
        }
        *offset = (*offset).wrapping_add(4);
    }

    /// Restores the status register from the saved status register of the
    /// current mode, if the mode has one.
    pub fn restore_cpsr(&mut self)
        requires
            old(self).wf(),
        ensures
            final(self)@ == (match old(self)@.bank.get_spsr(old(self)@.mode()) {
                Some(spsr) => old(self)@.with_cpsr(spsr),
                None => old(self)@,
            }),
    {
        let op_mode = self.cpsr.operating_mode();
        if let Some(spsr) = self.bank.get_spsr(op_mode) {
            self.cpsr = spsr;
        }
    }
}

impl<V> CpuView<V> {
    /// Value stored for register `rs` by a block store.
    pub open spec fn stored_value(self, rs: int, usr: bool) -> u32 {
        if rs == 15 {
            self.pc().wrapping_add(4)
        } else if usr {
            self.reg[rs]
        } else {
            self.get_reg(rs)
        }
    }

    /// The state after a block load writes `value` to register `rd`.
    pub open spec fn load_value(self, rd: int, value: u32, usr: bool) -> CpuView<V> {
        if usr {
            CpuView { reg: self.reg.update(rd, value), ..self }
        } else {
            self.set_reg(rd, value)
        }
    }
}

/// A register list names at most as many registers as bits were counted.
pub proof fn lemma_rlist_count_le(rlist: u32, k: int)
    requires
        0 <= k <= 16,
    ensures
        rlist_count(rlist, k) <= k,
    decreases k,
{
    if k > 0 {
        lemma_rlist_count_le(rlist, k - 1);
    }
}

/// Number of set bits among bits 0..k of `rlist`.
pub open spec fn rlist_count(rlist: u32, k: int) -> u8
    decreases k,
{
    if k <= 0 {
        0
    } else {
        (rlist_count(rlist, k - 1) + (if bit(rlist, (k - 1) as u32) { 1int } else { 0int })) as u8
    }
}

/// State and cycles after the instruction waiting in the pipeline executes:
/// the instruction leaves the pipeline, and when the program counter no
/// longer follows the last fetch it is aligned and the pipeline flushed.
pub open spec fn spec_step_exec<B: Bus>(s: CpuView<B::V>) -> (Cycle, CpuView<B::V>) {
    let s0 = s.with_pipeline(Pipeline { curr_instr: None, ..s.pipeline });
    let (c, s1) = match s.pipeline.curr_instr {
        Some(instr) => instr.spec_exec::<B>(s0),
        None => (Cycle { i: 0, s: 0, n: 0 }, s0),
    };
    let s2 = if s1.pipeline.last_pc != s1.pc() {
        let a = s1.set_pc(
            if s1.thumb() {
                s1.pc() & !1u32
            } else {
                s1.pc() & !3u32
            },
        );
        a.with_pipeline(a.pipeline.flushed())
    } else {
        s1
    };
    (c, s2)
}

/// Whether a step is defined in state `s`: an instruction waits in the
/// pipeline, it can execute, and the pipeline can be refilled after it.
pub open spec fn step_ok<B: Bus>(s: CpuView<B::V>) -> bool {
    &&& s.pipeline.curr_instr matches Some(instr)
    &&& instr.exec_ok::<B>(s.with_pipeline(Pipeline { curr_instr: None, ..s.pipeline }))
    &&& pipeline_loadable::<B>(spec_step_exec::<B>(s).1)
}

/// Cycles taken and state after one step: the waiting instruction executes
/// and the pipeline is refilled.
pub open spec fn spec_step<B: Bus>(s: CpuView<B::V>) -> (u8, CpuView<B::V>) {
    let (c, s2) = spec_step_exec::<B>(s);
    (c.spec_count() as u8, spec_load_pipeline::<B>(s2))
}

impl<B: Bus> Arm7tdmi<B> {
    /// Executes the instruction waiting in the pipeline, refills the
    /// pipeline and returns the number of cycles taken.
    pub fn step(&mut self) -> (r: u8)
        requires
            old(self).wf(),
            step_ok::<B>(old(self)@),
        ensures
            (r, final(self)@) == spec_step::<B>(old(self)@),
            final(self).wf(),
    {
        let instruction = self.pipeline.take();
        proof {
            lemma_exec_cycles_bounded::<B>(instruction, self@);
        }
        let cycle = self.exec(instruction);
        if self.pipeline.last_pc() != self.pc() {
            self.align_pc();
            self.pipeline.flush();
        }
        self.load_pipeline();
        cycle.count()
    }
}

/// The value of the `kind` item at `address` on bus state `bus`, widened to a word.
pub open spec fn spec_mem_value<B: Bus>(bus: B::V, address: u32, kind: DataType) -> u32 {
    match kind {
        DataType::Byte => B::spec_read_byte(bus, address) as u32,
        DataType::HWord => crate::bus::memory::spec_read_hword::<B>(bus, address) as u32,
        DataType::Word => spec_read_word::<B>(bus, address),
    }
}

impl<B: Bus> Arm7tdmi<B> {
    /// Whether memory holds each expected value: `(address, expected, kind)`.
    pub fn assert_mem(&self, assertions: Vec<(u32, u32, DataType)>) -> (r: bool)
        ensures
            r == forall|i: int|
                0 <= i < assertions.len() ==> spec_mem_value::<B>(
                    self.bus@,
                    #[trigger] assertions@[i].0,
                    assertions@[i].2,
                ) == assertions@[i].1,
    {
        let mut k: usize = 0;
        while k < assertions.len()
            invariant
                k <= assertions.len(),
                forall|i: int|
                    0 <= i < k ==> spec_mem_value::<B>(self.bus@, #[trigger] assertions@[i].0, assertions@[i].2)
                        == assertions@[i].1,
            decreases assertions.len() - k,
        {
            let (address, expected, kind) = assertions[k];
            let value = match kind {
                DataType::Byte => self.bus.read_byte(address) as u32,
                DataType::HWord => crate::bus::memory::read_hword(&self.bus, address) as u32,
                DataType::Word => read_word(&self.bus, address),
            };
            if value != expected {
                return false;
            }
            k = k + 1;
        }
        true
    }

    /// Whether each register holds its expected value: `(index, expected)`.
    pub fn assert_reg(&self, assertions: Vec<(usize, u32)>) -> (r: bool)
        requires
            self@.wf_regs(),
            forall|i: int| 0 <= i < assertions.len() ==> #[trigger] assertions@[i].0 < 16,
        ensures
            r == forall|i: int|
                0 <= i < assertions.len() ==> self@.get_reg(#[trigger] assertions@[i].0 as int)
                    == assertions@[i].1,
    {
        let mut k: usize = 0;
        while k < assertions.len()
            invariant
                k <= assertions.len(),
                self@.wf_regs(),
                forall|i: int| 0 <= i < assertions.len() ==> #[trigger] assertions@[i].0 < 16,
                forall|i: int|
                    0 <= i < k ==> self@.get_reg(#[trigger] assertions@[i].0 as int) == assertions@[i].1,
            decreases assertions.len() - k,
        {
            let (index, expected) = assertions[k];
            if self.get_reg(index) != expected {
                return false;
            }
            k = k + 1;
        }
        true
    }

    /// Whether each status flag has its expected state: `(bit, expected)`.
    pub fn assert_flag(&self, assertions: Vec<(u32, bool)>) -> (r: bool)
        requires
            forall|i: int| 0 <= i < assertions.len() ==> #[trigger] assertions@[i].0 < 32,
        ensures
            r == forall|i: int|
                0 <= i < assertions.len() ==> self.cpsr.flag(#[trigger] assertions@[i].0)
                    == assertions@[i].1,
    {
        let mut k: usize = 0;
        while k < assertions.len()
            invariant
                k <= assertions.len(),
                forall|i: int| 0 <= i < assertions.len() ==> #[trigger] assertions@[i].0 < 32,
                forall|i: int|
                    0 <= i < k ==> self.cpsr.flag(#[trigger] assertions@[i].0) == assertions@[i].1,
            decreases assertions.len() - k,
        {
            let (flag, expected) = assertions[k];
            if self.cpsr.has(flag) != expected {
                return false;
            }
            k = k + 1;
        }
        true
    }
}

} // verus!
