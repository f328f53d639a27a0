use vstd::prelude::*;
use vstd::string::*;

use crate::utils::text::{dec_text, write_dec};

verus! {

/// Width of a memory transfer.
#[derive(Debug, Clone, Copy, PartialEq, Eq, Structural)]
pub enum DataType {
    Byte,
    HWord,
    Word,
}

impl DataType {
    pub open spec fn spec_size(self) -> u8 {
        match self {
            DataType::Byte => 1,
            DataType::HWord => 2,
            DataType::Word => 4,
        }
    }

    /// Width in bytes.
    pub fn size(self) -> (r: u8)
        ensures
            r == self.spec_size(),
    {
        match self {
            DataType::Byte => 1,
            DataType::HWord => 2,
            DataType::Word => 4,
        }
    }
}

/// Registers with a conventional role.
#[derive(Debug, Clone, Copy, PartialEq, Eq, Structural)]
pub enum NamedRegister {
    LR,
    SP,
    PC,
}

impl NamedRegister {
    pub open spec fn spec_index(self) -> u8 {
        match self {
            NamedRegister::LR => 14,
            NamedRegister::SP => 13,
            NamedRegister::PC => 15,
        }
    }

    /// The register number of the named register.
    pub fn index(self) -> (r: u8)
        ensures
            r == self.spec_index(),
    {
        match self {
            NamedRegister::LR => 14,
            NamedRegister::SP => 13,
            NamedRegister::PC => 15,
        }
    }
}

/// Sequential or non-sequential memory access.
#[derive(Debug, Clone, Copy, PartialEq, Eq, Structural)]
pub enum MemoryAccess {
    Sequential,
    NonSequential,
}

/// Addressing mode of block and single data transfers:
/// increment/decrement, before/after.
#[derive(Debug, Clone, Copy, PartialEq, Eq, Structural)]
pub enum AddrMode {
    IB,
    IA,
    DB,
    DA,
}

impl AddrMode {
    /// The name of the variant, as instruction listings write it.
    pub open spec fn spec_name(self) -> Seq<char> {
        match self {
            AddrMode::IB => "IB"@,
            AddrMode::IA => "IA"@,
            AddrMode::DB => "DB"@,
            AddrMode::DA => "DA"@,
        }
    }

    /// The name of the variant (see `spec_name`).
    pub fn name(&self) -> (r: &'static str)
        ensures
            r@ == self.spec_name(),
    {
        match self {
            AddrMode::IB => "IB",
            AddrMode::IA => "IA",
            AddrMode::DB => "DB",
            AddrMode::DA => "DA",
        }
    }
}

impl AddrMode {
    pub open spec fn spec_new(p: u8, u: u8) -> AddrMode {
        if p == 0 && u == 0 {
            AddrMode::DA
        } else if p == 0 && u == 1 {
            AddrMode::IA
        } else if p == 1 && u == 0 {
            AddrMode::DB
        } else {
            AddrMode::IB
        }
    }

    /// The addressing mode of the pre/post-index bit `p` and the up/down bit `u`.
    pub fn new(p: u8, u: u8) -> (r: AddrMode)
        ensures
            r == AddrMode::spec_new(p, u),
    {
        if p == 0 && u == 0 {
            AddrMode::DA
        } else if p == 0 && u == 1 {
            AddrMode::IA
        } else if p == 1 && u == 0 {
            AddrMode::DB
        } else {
            AddrMode::IB
        }
    }
}

/// Offset of a single data transfer with its addressing mode and write-back flag.
#[derive(Debug, Clone, Copy, PartialEq, Eq, Structural)]
pub struct RegisterOffset {
    pub amod: AddrMode,
    pub wb: bool,
    pub value: u32,
}

impl RegisterOffset {
    pub fn new(value: u32, amod: AddrMode, wb: bool) -> (r: RegisterOffset)
        ensures
            r == (RegisterOffset { amod, wb, value }),
    {
        RegisterOffset { amod, wb, value }
    }
}

/// Carry input of an addition.
#[derive(Debug, Clone, Copy, PartialEq, Eq, Structural)]
pub enum Carry {
    One,
    Zero,
    Flag,
}

/// Cycles spent by an instruction: internal, sequential and non-sequential.
#[derive(Debug, Clone, Copy, PartialEq, Eq, Structural)]
pub struct Cycle {
    pub i: u8,
    pub s: u8,
    pub n: u8,
}

impl Cycle {
    pub open spec fn spec_count(self) -> int {
        self.i + self.s + self.n
    }

    /// Total number of cycles.
    pub fn count(self) -> (r: u8)
        requires
            self.spec_count() < 256,
        ensures
            r == self.spec_count(),
    {
        self.i + self.s + self.n
    }
}

/// Processor operating mode.
#[derive(Debug, Clone, Copy, PartialEq, Eq, Structural)]
pub enum OperatingMode {
    USR,
    FIQ,
    IRQ,
    SVC,
    ABT,
    UND,
    SYS,
}

impl OperatingMode {
    /// The name of the variant, as instruction listings write it.
    pub open spec fn spec_name(self) -> Seq<char> {
        match self {
            OperatingMode::USR => "USR"@,
            OperatingMode::FIQ => "FIQ"@,
            OperatingMode::IRQ => "IRQ"@,
            OperatingMode::SVC => "SVC"@,
            OperatingMode::ABT => "ABT"@,
            OperatingMode::UND => "UND"@,
            OperatingMode::SYS => "SYS"@,
        }
    }

    /// The name of the variant (see `spec_name`).
    pub fn name(&self) -> (r: &'static str)
        ensures
            r@ == self.spec_name(),
    {
        match self {
            OperatingMode::USR => "USR",
            OperatingMode::FIQ => "FIQ",
            OperatingMode::IRQ => "IRQ",
            OperatingMode::SVC => "SVC",
            OperatingMode::ABT => "ABT",
            OperatingMode::UND => "UND",
            OperatingMode::SYS => "SYS",
        }
    }
}

impl OperatingMode {
    /// The mode bits M4-M0 of the mode.
    pub open spec fn spec_bits(self) -> u32 {
        match self {
            OperatingMode::USR => 0b10000,
            OperatingMode::FIQ => 0b10001,
            OperatingMode::IRQ => 0b10010,
            OperatingMode::SVC => 0b10011,
            OperatingMode::ABT => 0b10111,
            OperatingMode::UND => 0b11011,
            OperatingMode::SYS => 0b11111,
        }
    }

    /// Whether `bits` are the mode bits of some mode.
    pub open spec fn is_valid_bits(bits: u32) -> bool {
        bits == 0b10000 || bits == 0b10001 || bits == 0b10010 || bits == 0b10011 || bits
            == 0b10111 || bits == 0b11011 || bits == 0b11111
    }

    /// The mode whose mode bits are `bits`.
    pub open spec fn spec_from_bits(bits: u32) -> OperatingMode
        recommends
            OperatingMode::is_valid_bits(bits),
    {
        if bits == 0b10000 {
            OperatingMode::USR
        } else if bits == 0b10001 {
            OperatingMode::FIQ
        } else if bits == 0b10010 {
            OperatingMode::IRQ
        } else if bits == 0b10011 {
            OperatingMode::SVC
        } else if bits == 0b10111 {
            OperatingMode::ABT
        } else if bits == 0b11011 {
            OperatingMode::UND
        } else {
            OperatingMode::SYS
        }
    }

    /// The mode bits M4-M0 of the mode.
    pub fn bits(self) -> (r: u32)
        ensures
            r == self.spec_bits(),
            OperatingMode::is_valid_bits(r),
            OperatingMode::spec_from_bits(r) == self,
    {
        match self {
            OperatingMode::USR => 0b10000,
            OperatingMode::FIQ => 0b10001,
            OperatingMode::IRQ => 0b10010,
            OperatingMode::SVC => 0b10011,
            OperatingMode::ABT => 0b10111,
            OperatingMode::UND => 0b11011,
            OperatingMode::SYS => 0b11111,
        }
    }
}

/// Processor exceptions.
#[derive(Debug, Clone, Copy, PartialEq, Eq, Structural)]
pub enum Exception {
    Reset,
    Undefined,
    SoftwareInterrupt,
    PrefetchAbort,
    DataAbort,
    NormalInterrupt,
    FastInterrupt,
}

impl Exception {
    pub open spec fn spec_vector(self) -> u32 {
        match self {
            Exception::Reset => 0x00,
            Exception::Undefined => 0x04,
            Exception::SoftwareInterrupt => 0x08,
            Exception::PrefetchAbort => 0x0C,
            Exception::DataAbort => 0x10,
            Exception::NormalInterrupt => 0x18,
            Exception::FastInterrupt => 0x1C,
        }
    }

    pub open spec fn spec_operating_mode(self) -> OperatingMode {
        match self {
            Exception::Reset => OperatingMode::SVC,
            Exception::Undefined => OperatingMode::UND,
            Exception::SoftwareInterrupt => OperatingMode::SVC,
            Exception::PrefetchAbort => OperatingMode::ABT,
            Exception::DataAbort => OperatingMode::ABT,
            Exception::NormalInterrupt => OperatingMode::IRQ,
            Exception::FastInterrupt => OperatingMode::IRQ,
        }
    }

    pub open spec fn spec_disable_irq(self) -> bool {
        self is FastInterrupt || self is NormalInterrupt || self is Reset
    }

    pub open spec fn spec_disable_fiq(self) -> bool {
        self is Reset
    }

    /// Address of the exception vector.
    pub fn vector(self) -> (r: u32)
        ensures
            r == self.spec_vector(),
    {
        match self {
            Exception::Reset => 0x00,
            Exception::Undefined => 0x04,
            Exception::SoftwareInterrupt => 0x08,
            Exception::PrefetchAbort => 0x0C,
            Exception::DataAbort => 0x10,
            Exception::NormalInterrupt => 0x18,
            Exception::FastInterrupt => 0x1C,
        }
    }

    /// Mode entered when the exception is taken.
    pub fn operating_mode(self) -> (r: OperatingMode)
        ensures
            r == self.spec_operating_mode(),
    {
        match self {
            Exception::Reset => OperatingMode::SVC,
            Exception::Undefined => OperatingMode::UND,
            Exception::SoftwareInterrupt => OperatingMode::SVC,
            Exception::PrefetchAbort => OperatingMode::ABT,
            Exception::DataAbort => OperatingMode::ABT,
            Exception::NormalInterrupt => OperatingMode::IRQ,
            Exception::FastInterrupt => OperatingMode::IRQ,
        }
    }

    /// Whether taking the exception masks normal interrupts.
    pub fn disable_irq(self) -> (r: bool)
        ensures
            r == self.spec_disable_irq(),
    {
        match self {
            Exception::FastInterrupt | Exception::NormalInterrupt | Exception::Reset => true,
            _ => false,
        }
    }

    /// Whether taking the exception masks fast interrupts.
    pub fn disable_fiq(self) -> (r: bool)
        ensures
            r == self.spec_disable_fiq(),
    {
        match self {
            Exception::Reset => true,
            _ => false,
        }
    }
}

/// Condition field of an instruction.
#[derive(Debug, Clone, Copy, PartialEq, Eq, Structural)]
pub enum Condition {
    EQ,
    NE,
    CS,
    CC,
    MI,
    PL,
    VS,
    VC,
    HI,
    LS,
    GE,
    LT,
    GT,
    LE,
    AL,
}

impl Condition {
    /// The name of the variant, as instruction listings write it.
    pub open spec fn spec_name(self) -> Seq<char> {
        match self {
            Condition::EQ => "EQ"@,
            Condition::NE => "NE"@,
            Condition::CS => "CS"@,
            Condition::CC => "CC"@,
            Condition::MI => "MI"@,
            Condition::PL => "PL"@,
            Condition::VS => "VS"@,
            Condition::VC => "VC"@,
            Condition::HI => "HI"@,
            Condition::LS => "LS"@,
            Condition::GE => "GE"@,
            Condition::LT => "LT"@,
            Condition::GT => "GT"@,
            Condition::LE => "LE"@,
            Condition::AL => "AL"@,
        }
    }

    /// The name of the variant (see `spec_name`).
    pub fn name(&self) -> (r: &'static str)
        ensures
            r@ == self.spec_name(),
    {
        match self {
            Condition::EQ => "EQ",
            Condition::NE => "NE",
            Condition::CS => "CS",
            Condition::CC => "CC",
            Condition::MI => "MI",
            Condition::PL => "PL",
            Condition::VS => "VS",
            Condition::VC => "VC",
            Condition::HI => "HI",
            Condition::LS => "LS",
            Condition::GE => "GE",
            Condition::LT => "LT",
            Condition::GT => "GT",
            Condition::LE => "LE",
            Condition::AL => "AL",
        }
    }
}

impl Condition {
    pub open spec fn spec_new(value: u8) -> Condition
        recommends
            value < 15,
    {
        if value == 0x0 {
            Condition::EQ
        } else if value == 0x1 {
            Condition::NE
        } else if value == 0x2 {
            Condition::CS
        } else if value == 0x3 {
            Condition::CC
        } else if value == 0x4 {
            Condition::MI
        } else if value == 0x5 {
            Condition::PL
        } else if value == 0x6 {
            Condition::VS
        } else if value == 0x7 {
            Condition::VC
        } else if value == 0x8 {
            Condition::HI
        } else if value == 0x9 {
            Condition::LS
        } else if value == 0xA {
            Condition::GE
        } else if value == 0xB {
            Condition::LT
        } else if value == 0xC {
            Condition::GT
        } else if value == 0xD {
            Condition::LE
        } else {
            Condition::AL
        }
    }

    /// The condition encoded by the 4-bit field `value`; 0xF encodes none.
    pub fn new(value: u8) -> (r: Condition)
        requires
            value < 15,
        ensures
            r == Condition::spec_new(value),
    {
        match value {
            0x0 => Condition::EQ,
            0x1 => Condition::NE,
            0x2 => Condition::CS,
            0x3 => Condition::CC,
            0x4 => Condition::MI,
            0x5 => Condition::PL,
            0x6 => Condition::VS,
            0x7 => Condition::VC,
            0x8 => Condition::HI,
            0x9 => Condition::LS,
            0xA => Condition::GE,
            0xB => Condition::LT,
            0xC => Condition::GT,
            0xD => Condition::LE,
            _ => Condition::AL,
        }
    }
}

/// An instruction operand: a register, an immediate, or SP/PC,
/// optionally shifted and optionally bitwise negated.
#[derive(Debug, Clone, Copy, PartialEq, Eq, Structural)]
pub struct Operand {
    pub kind: OperandKind,
    pub value: u32,
    pub negate: bool,
    pub shift: Option<Shift>,
}

impl Operand {
    /// The operand as instruction listings write it: `SP`, `PC`, `#n`,
    /// `#-n` or `Rn`, followed by `, KIND #n` or `, KIND Rn` when shifted.
    pub open spec fn spec_text(self) -> Seq<char> {
        let lhs = match self.kind {
            OperandKind::SP => "SP"@,
            OperandKind::PC => "PC"@,
            OperandKind::Imm => if self.negate {
                "#-"@ + dec_text(self.value as nat)
            } else {
                "#"@ + dec_text(self.value as nat)
            },
            OperandKind::Reg => "R"@ + dec_text(self.value as nat),
        };
        match self.shift {
            Some(sh) => lhs + ", "@ + sh.kind.spec_name() + " "@ + (if sh.register {
                "R"@
            } else {
                "#"@
            }) + dec_text(sh.value as nat),
            None => lhs,
        }
    }

    /// The operand as text (see `spec_text`).
    pub fn text(&self) -> (r: String)
        ensures
            r@ == self.spec_text(),
    {
        let mut r = String::new();
        match self.kind {
            OperandKind::SP => r.append("SP"),
            OperandKind::PC => r.append("PC"),
            OperandKind::Imm => {
                if self.negate {
                    r.append("#-");
                } else {
                    r.append("#");
                }
                write_dec(&mut r, self.value);
            },
            OperandKind::Reg => {
                r.append("R");
                write_dec(&mut r, self.value);
            },
        }
        if let Some(sh) = self.shift {
            r.append(", ");
            r.append(sh.kind.name());
            r.append(" ");
            if sh.register {
                r.append("R");
            } else {
                r.append("#");
            }
            write_dec(&mut r, sh.value as u32);
        }
        r
    }
}

impl Operand {
    /// Register numbers of the operand and of its shift amount are below 16.
    pub open spec fn wf(self) -> bool {
        &&& (!(self.kind is Imm) ==> self.value < 16)
        &&& (self.shift matches Some(s) ==> (s.register ==> s.value < 16))
    }

    pub open spec fn spec_is_pc(self) -> bool {
        self.kind is PC || (self.kind is Reg && self.value == 15)
    }

    pub open spec fn spec_is_reg(self) -> bool {
        self.kind is Reg
    }

    /// Whether the operand is shifted by a register amount.
    pub open spec fn spec_reg_shift(self) -> bool {
        self.shift matches Some(s) && s.register
    }

    /// The same operand, bitwise negated.
    pub fn not(self) -> (r: Operand)
        ensures
            r == (Operand { negate: true, ..self }),
    {
        Operand { negate: true, ..self }
    }

    /// The same operand, shifted by `shift`.
    pub fn shift(self, shift: Shift) -> (r: Operand)
        ensures
            r == (Operand { shift: Some(shift), ..self }),
    {
        Operand { shift: Some(shift), ..self }
    }

    /// The program counter as an operand.
    pub fn pc() -> (r: Operand)
        ensures
            r == (Operand { kind: OperandKind::PC, value: 15, negate: false, shift: None }),
    {
        Operand { kind: OperandKind::PC, value: 15, negate: false, shift: None }
    }

    /// The stack pointer as an operand.
    pub fn sp() -> (r: Operand)
        ensures
            r == (Operand { kind: OperandKind::SP, value: 13, negate: false, shift: None }),
    {
        Operand { kind: OperandKind::SP, value: 13, negate: false, shift: None }
    }

    /// Whether the operand names the program counter.
    pub fn is_pc(&self) -> (r: bool)
        ensures
            r == self.spec_is_pc(),
    {
        match self.kind {
            OperandKind::PC => true,
            OperandKind::Reg => self.value == 15,
            _ => false,
        }
    }

    /// Whether the operand is an immediate.
    pub fn is_imm(&self) -> (r: bool)
        ensures
            r == (self.kind is Imm),
    {
        match self.kind {
            OperandKind::Imm => true,
            _ => false,
        }
    }

    /// Whether the operand is a general register.
    pub fn is_reg(&self) -> (r: bool)
        ensures
            r == self.spec_is_reg(),
    {
        match self.kind {
            OperandKind::Reg => true,
            _ => false,
        }
    }

    /// Whether the operand is shifted by a register amount.
    pub fn has_reg_shift(&self) -> (r: bool)
        ensures
            r == self.spec_reg_shift(),
    {
        match self.shift {
            Some(s) => s.register,
            None => false,
        }
    }
}

#[derive(Debug, Clone, Copy, PartialEq, Eq, Structural)]
pub enum OperandKind {
    SP,
    PC,
    Imm,
    Reg,
}

/// Barrel shifter operation.
#[derive(Debug, Clone, Copy, PartialEq, Eq, Structural)]
pub enum ShiftKind {
    LSL,
    LSR,
    ASR,
    ROR,
}

impl ShiftKind {
    /// The name of the variant, as instruction listings write it.
    pub open spec fn spec_name(self) -> Seq<char> {
        match self {
            ShiftKind::LSL => "LSL"@,
            ShiftKind::LSR => "LSR"@,
            ShiftKind::ASR => "ASR"@,
            ShiftKind::ROR => "ROR"@,
        }
    }

    /// The name of the variant (see `spec_name`).
    pub fn name(&self) -> (r: &'static str)
        ensures
            r@ == self.spec_name(),
    {
        match self {
            ShiftKind::LSL => "LSL",
            ShiftKind::LSR => "LSR",
            ShiftKind::ASR => "ASR",
            ShiftKind::ROR => "ROR",
        }
    }
}

impl ShiftKind {
    pub open spec fn spec_new(value: u8) -> ShiftKind {
        if value == 0 {
            ShiftKind::LSL
        } else if value == 1 {
            ShiftKind::LSR
        } else if value == 2 {
            ShiftKind::ASR
        } else {
            ShiftKind::ROR
        }
    }

    /// The shift operation encoded by the 2-bit field `value`.
    pub fn new(value: u8) -> (r: ShiftKind)
        requires
            value < 4,
        ensures
            r == ShiftKind::spec_new(value),
    {
        match value {
            0 => ShiftKind::LSL,
            1 => ShiftKind::LSR,
            2 => ShiftKind::ASR,
            _ => ShiftKind::ROR,
        }
    }
}

/// A shift by an immediate amount or by the amount held in a register.
#[derive(Debug, Clone, Copy, PartialEq, Eq, Structural)]
pub struct Shift {
    pub value: u8,
    pub register: bool,
    pub kind: ShiftKind,
}

impl Shift {
    /// A shift by the immediate amount `value`.
    pub fn imm(value: u8, kind: ShiftKind) -> (r: Shift)
        ensures
            r == (Shift { value, register: false, kind }),
    {
        Shift { value, register: false, kind }
    }

    /// A shift by the amount held in register `value`.
    pub fn reg(value: u8, kind: ShiftKind) -> (r: Shift)
        ensures
            r == (Shift { value, register: true, kind }),
    {
        Shift { value, register: true, kind }
    }
}

/// Destination (or accumulator) of a multiplication: a low register
/// and, for long multiplications, a high register.
#[derive(Debug, Clone, Copy, PartialEq, Eq, Structural)]
pub struct LongOperand {
    pub lo: u8,
    pub hi: Option<u8>,
}

impl LongOperand {
    /// A 64-bit operand held in registers `lo` and `hi`.
    pub fn new(lo: u8, hi: u8) -> (r: LongOperand)
        ensures
            r == (LongOperand { lo, hi: Some(hi) }),
    {
        LongOperand { lo, hi: Some(hi) }
    }

    /// A 32-bit operand held in register `lo`.
    pub fn single(lo: u8) -> (r: LongOperand)
        ensures
            r == (LongOperand { lo, hi: None }),
    {
        LongOperand { lo, hi: None }
    }
}

/// General register `r` as an operand.
pub open spec fn spec_reg(r: u8) -> Operand {
    Operand { kind: OperandKind::Reg, value: r as u32, negate: false, shift: None }
}

/// Conversion of a register number or a value into an operand.
pub trait ToOperand: Sized {
    spec fn spec_value(self) -> u32;

    /// The general register numbered by `self`.
    fn reg(self) -> (r: Operand)
        ensures
            r == (Operand {
                kind: OperandKind::Reg,
                value: self.spec_value(),
                negate: false,
                shift: None,
            }),
    ;

    /// The immediate `self`.
    fn imm(self) -> (r: Operand)
        ensures
            r == (Operand {
                kind: OperandKind::Imm,
                value: self.spec_value(),
                negate: false,
                shift: None,
            }),
    ;
}

impl ToOperand for u8 {
    open spec fn spec_value(self) -> u32 {
        self as u32
    }

    fn reg(self) -> (r: Operand) {
        Operand { kind: OperandKind::Reg, value: self as u32, negate: false, shift: None }
    }

    fn imm(self) -> (r: Operand) {
        Operand { kind: OperandKind::Imm, value: self as u32, negate: false, shift: None }
    }
}

impl ToOperand for u16 {
    open spec fn spec_value(self) -> u32 {
        self as u32
    }

    fn reg(self) -> (r: Operand) {
        Operand { kind: OperandKind::Reg, value: self as u32, negate: false, shift: None }
    }

    fn imm(self) -> (r: Operand) {
        Operand { kind: OperandKind::Imm, value: self as u32, negate: false, shift: None }
    }
}

impl ToOperand for u32 {
    open spec fn spec_value(self) -> u32 {
        self
    }

    fn reg(self) -> (r: Operand) {
        Operand { kind: OperandKind::Reg, value: self, negate: false, shift: None }
    }

    fn imm(self) -> (r: Operand) {
        Operand { kind: OperandKind::Imm, value: self, negate: false, shift: None }
    }
}

/// The assembler name of register `i`.
pub open spec fn spec_reg_name(i: int) -> Seq<char> {
    if i == 0 {
        "R0"@
    } else if i == 1 {
        "R1"@
    } else if i == 2 {
        "R2"@
    } else if i == 3 {
        "R3"@
    } else if i == 4 {
        "R4"@
    } else if i == 5 {
        "R5"@
    } else if i == 6 {
        "R6"@
    } else if i == 7 {
        "R7"@
    } else if i == 8 {
        "R8"@
    } else if i == 9 {
        "R9"@
    } else if i == 10 {
        "R10"@
    } else if i == 11 {
        "R11"@
    } else if i == 12 {
        "R12"@
    } else if i == 13 {
        "R13"@
    } else if i == 14 {
        "R14"@
    } else {
        "R15"@
    }
}

/// The assembler name of register `i` (`R15` for any number above 14).
pub fn reg_name(i: u32) -> (r: &'static str)
    ensures
        r@ == spec_reg_name(i as int),
{
    match i {
        0 => "R0",
        1 => "R1",
        2 => "R2",
        3 => "R3",
        4 => "R4",
        5 => "R5",
        6 => "R6",
        7 => "R7",
        8 => "R8",
        9 => "R9",
        10 => "R10",
        11 => "R11",
        12 => "R12",
        13 => "R13",
        14 => "R14",
        _ => "R15",
    }
}

impl NamedRegister {
    pub open spec fn spec_name(self) -> Seq<char> {
        match self {
            NamedRegister::LR => "LR"@,
            NamedRegister::SP => "SP"@,
            NamedRegister::PC => "PC"@,
        }
    }

    /// The register's name.
    pub fn name(self) -> (r: &'static str)
        ensures
            r@ == self.spec_name(),
    {
        match self {
            NamedRegister::LR => "LR",
            NamedRegister::SP => "SP",
            NamedRegister::PC => "PC",
        }
    }
}

/// The names of the registers set among bits 0..k of `rlist`, lowest first.
pub open spec fn rlist_names(rlist: u16, k: int) -> Seq<Seq<char>>
    decreases k,
{
    if k <= 0 {
        Seq::empty()
    } else if crate::utils::bits::bit(rlist as u32, (k - 1) as u32) {
        rlist_names(rlist, k - 1).push(spec_reg_name(k - 1))
    } else {
        rlist_names(rlist, k - 1)
    }
}

/// The parts joined by commas.
pub open spec fn join_commas(parts: Seq<Seq<char>>) -> Seq<char>
    decreases parts.len(),
{
    if parts.len() == 0 {
        Seq::empty()
    } else if parts.len() == 1 {
        parts[0]
    } else {
        join_commas(parts.drop_last()) + ","@ + parts.last()
    }
}

/// A register list as an assembler writes it: the registers of `registers`
/// lowest first, then `named` if given, separated by commas, in braces.
pub open spec fn spec_format_rlist(registers: u16, named: Option<NamedRegister>) -> Seq<char> {
    let names = rlist_names(registers, 16);
    let all = match named {
        Some(n) => names.push(n.spec_name()),
        None => names,
    };
    "{"@ + join_commas(all) + "}"@
}

/// Formats a register list (see `spec_format_rlist`).
pub fn format_rlist(registers: u16, named: Option<NamedRegister>) -> (r: String)
    ensures
        r@ == spec_format_rlist(registers, named),
{
    let mut inner = String::new();
    let mut count: usize = 0;
    let mut i: u32 = 0;
    while i < 16
        invariant
            i <= 16,
            count == rlist_names(registers, i as int).len(),
            count <= i,
            inner@ == join_commas(rlist_names(registers, i as int)),
        decreases 16 - i,
    {
        let ghost prev = rlist_names(registers, i as int);
        if crate::utils::bits::is_set(registers as u32, i) {
            let name = reg_name(i);
            proof {
                lemma_join_push(prev, name@);
            }
            if count > 0 {
                inner.append(",");
            }
            inner.append(name);
            count = count + 1;
        }
        i = i + 1;
    }
    if let Some(n) = named {
        let name = n.name();
        proof {
            lemma_join_push(rlist_names(registers, 16), name@);
        }
        if count > 0 {
            inner.append(",");
        }
        inner.append(name);
    }
    let mut r = String::from_str("{");
    r.append(inner.as_str());
    r.append("}");
    r
}

/// Appending a part to a joined list adds a comma and the part, or just the
/// part to an empty list.
proof fn lemma_join_push(parts: Seq<Seq<char>>, x: Seq<char>)
    ensures
        join_commas(parts.push(x)) == if parts.len() == 0 {
            Seq::<char>::empty() + x
        } else {
            join_commas(parts) + ","@ + x
        },
{
    assert(parts.push(x).drop_last() =~= parts);
    if parts.len() == 0 {
        assert(parts.push(x)[0] == x);
        assert(Seq::<char>::empty() + x =~= x);
    }
}

} // verus!
