pub mod format_01;
pub mod format_02;
pub mod format_03;
pub mod format_04;
pub mod format_05;
pub mod format_06;
pub mod format_07;
pub mod format_08;
pub mod format_09;
pub mod format_10;
pub mod format_11;
pub mod format_12;
pub mod format_13;
pub mod format_14;
pub mod format_15;
pub mod format_16;
pub mod format_17;
pub mod format_18;
pub mod format_19;

use vstd::prelude::*;
use vstd::string::*;

use crate::arm7tdmi::{Arm7tdmi, CpuView};
use crate::arm7tdmi::common::{Cycle, Exception};
use crate::arm7tdmi::pipeline::{exception_entry, pipeline_loadable, spec_load_pipeline};
use crate::bus::memory::Bus;
use crate::utils::bits::{bit, field, get_bits, is_set};
use crate::utils::text::{hex_text, write_hex};

verus! {

/// A decoded THUMB instruction.
#[derive(Debug, Clone, Copy, PartialEq, Eq, Structural)]
pub enum ThumbInstr {
    /// Move shifted register
    Format01(format_01::Format1),
    /// Add/subtract
    Format02(format_02::Format2),
    /// Move/compare/add/subtract immediate
    Format03(format_03::Format3),
    /// ALU operations
    Format04(format_04::Format4),
    /// Hi register operations/branch exchange
    Format05(format_05::Format5),
    /// Load PC-relative
    Format06(format_06::Instruction),
    /// Load/store with register offset
    Format07(format_07::Format7),
    /// Load/store sign-extended byte/half-word
    Format08(format_08::Format8),
    /// Load/store with immediate offset
    Format09(format_09::Format9),
    /// Load/store half-word
    Format10(format_10::Instruction),
    /// Load/store SP-relative
    Format11(format_11::Format11),
    /// Get relative address
    Format12(format_12::Format12),
    /// Add offset to stack pointer
    Format13(format_13::Format13),
    /// Push/pop registers
    Format14(format_14::Instruction),
    /// Multiple load/store
    Format15(format_15::Format15),
    /// Conditional branch
    Format16(format_16::Format16),
    /// Software interrupt
    Format17(format_17::Format17),
    /// Unconditional branch
    Format18(format_18::Format18),
    /// Long branch with link
    Format19(format_19::Instruction),
    /// Undefined THUMB instruction
    Undefined(u16),
}

/// The instruction class of a THUMB half-word `h`, by the bit patterns of
/// bits 15-8, tried in order (0 when no pattern matches).
pub open spec fn spec_thumb_format(h: u32) -> u8 {
    if field(h, 12, 0xF) == 0xF {
        19
    } else if field(h, 11, 0x1F) == 0b11100 {
        18
    } else if field(h, 8, 0xFF) == 0b1101_1111 {
        17
    } else if field(h, 12, 0xF) == 0b1101 {
        16
    } else if field(h, 12, 0xF) == 0b1100 {
        15
    } else if field(h, 12, 0xF) == 0b1011 && bit(h, 10) && !bit(h, 9) {
        14
    } else if field(h, 8, 0xFF) == 0b1011_0000 {
        13
    } else if field(h, 12, 0xF) == 0b1010 {
        12
    } else if field(h, 12, 0xF) == 0b1001 {
        11
    } else if field(h, 12, 0xF) == 0b1000 {
        10
    } else if field(h, 13, 0x7) == 0b011 {
        9
    } else if field(h, 12, 0xF) == 0b0101 && bit(h, 9) {
        8
    } else if field(h, 12, 0xF) == 0b0101 {
        7
    } else if field(h, 11, 0x1F) == 0b01001 {
        6
    } else if field(h, 10, 0x3F) == 0b010001 {
        5
    } else if field(h, 10, 0x3F) == 0b010000 {
        4
    } else if field(h, 13, 0x7) == 0b001 {
        3
    } else if field(h, 11, 0x1F) == 0b00011 {
        2
    } else if field(h, 13, 0x7) == 0 {
        1
    } else {
        0
    }
}

/// Whether decoding the half-word `h` is defined: a conditional branch
/// must not have the condition 0xE.
pub open spec fn thumb_decodable(h: u32) -> bool {
    spec_thumb_format(h) == 16 ==> format_16::Format16::decodable(h)
}

pub open spec fn spec_decode_thumb_half(h: u32) -> ThumbInstr {
    let f = spec_thumb_format(h);
    if f == 19 {
        ThumbInstr::Format19(format_19::Instruction::spec_from(h))
    } else if f == 18 {
        ThumbInstr::Format18(format_18::Format18::spec_from(h))
    } else if f == 17 {
        ThumbInstr::Format17(format_17::Format17::spec_from(h))
    } else if f == 16 {
        ThumbInstr::Format16(format_16::Format16::spec_from(h))
    } else if f == 15 {
        ThumbInstr::Format15(format_15::Format15::spec_from(h))
    } else if f == 14 {
        ThumbInstr::Format14(format_14::Instruction::spec_from(h))
    } else if f == 13 {
        ThumbInstr::Format13(format_13::Format13::spec_from(h))
    } else if f == 12 {
        ThumbInstr::Format12(format_12::Format12::spec_from(h))
    } else if f == 11 {
        ThumbInstr::Format11(format_11::Format11::spec_from(h))
    } else if f == 10 {
        ThumbInstr::Format10(format_10::Instruction::spec_from(h))
    } else if f == 9 {
        ThumbInstr::Format09(format_09::Format9::spec_from(h))
    } else if f == 8 {
        ThumbInstr::Format08(format_08::Format8::spec_from(h))
    } else if f == 7 {
        ThumbInstr::Format07(format_07::Format7::spec_from(h))
    } else if f == 6 {
        ThumbInstr::Format06(format_06::Instruction::spec_from(h))
    } else if f == 5 {
        ThumbInstr::Format05(format_05::Format5::spec_from(h))
    } else if f == 4 {
        ThumbInstr::Format04(format_04::Format4::spec_from(h))
    } else if f == 3 {
        ThumbInstr::Format03(format_03::Format3::spec_from(h))
    } else if f == 2 {
        ThumbInstr::Format02(format_02::Format2::spec_from(h))
    } else if f == 1 {
        ThumbInstr::Format01(format_01::Format1::spec_from(h))
    } else {
        ThumbInstr::Undefined(h as u16)
    }
}

proof fn lemma_format1_opcode(h: u32)
    by (bit_vector)
    requires
        (h >> 13u32) & 0x7 == 0,
        (h >> 11u32) & 0x1F != 0b00011,
    ensures
        (h >> 11u32) & 0x3 < 3,
{
}

/// The half-word of `word` that holds the instruction at `pc`.
pub open spec fn thumb_half(word: u32, pc: u32) -> u32 {
    if pc & 1 == 0 {
        field(word, 0, 0xFFFF)
    } else {
        field(word, 16, 0xFFFF)
    }
}

/// The instruction class of a THUMB half-word (see `spec_thumb_format`).
pub fn thumb_format(h: u32) -> (r: u8)
    ensures
        r == spec_thumb_format(h),
{
    if get_bits(h, 12, 0xF) == 0xF {
        19
    } else if get_bits(h, 11, 0x1F) == 0b11100 {
        18
    } else if get_bits(h, 8, 0xFF) == 0b1101_1111 {
        17
    } else if get_bits(h, 12, 0xF) == 0b1101 {
        16
    } else if get_bits(h, 12, 0xF) == 0b1100 {
        15
    } else if get_bits(h, 12, 0xF) == 0b1011 && is_set(h, 10) && !is_set(h, 9) {
        14
    } else if get_bits(h, 8, 0xFF) == 0b1011_0000 {
        13
    } else if get_bits(h, 12, 0xF) == 0b1010 {
        12
    } else if get_bits(h, 12, 0xF) == 0b1001 {
        11
    } else if get_bits(h, 12, 0xF) == 0b1000 {
        10
    } else if get_bits(h, 13, 0x7) == 0b011 {
        9
    } else if get_bits(h, 12, 0xF) == 0b0101 && is_set(h, 9) {
        8
    } else if get_bits(h, 12, 0xF) == 0b0101 {
        7
    } else if get_bits(h, 11, 0x1F) == 0b01001 {
        6
    } else if get_bits(h, 10, 0x3F) == 0b010001 {
        5
    } else if get_bits(h, 10, 0x3F) == 0b010000 {
        4
    } else if get_bits(h, 13, 0x7) == 0b001 {
        3
    } else if get_bits(h, 11, 0x1F) == 0b00011 {
        2
    } else if get_bits(h, 13, 0x7) == 0 {
        1
    } else {
        0
    }
}

impl<B: Bus> Arm7tdmi<B> {
    /// Decodes the THUMB instruction held in the half of `word` selected by
    /// the alignment of the program counter.
    pub fn decode_thumb(&self, word: u32) -> (r: ThumbInstr)
        requires
            thumb_decodable(thumb_half(word, self.reg@[15])),
        ensures
            r == spec_decode_thumb_half(thumb_half(word, self.reg@[15])),
    {
        let word_aligned = self.reg[15] & 1 == 0;
        let h = if word_aligned {
            get_bits(word, 0, 0xFFFF)
        } else {
            get_bits(word, 16, 0xFFFF)
        };
        let instr = h as u16;
        let f = thumb_format(h);
        proof {
            if f == 1 {
                lemma_format1_opcode(h);
            }
        }
        if f == 19 {
            ThumbInstr::Format19(format_19::Instruction::from(h))
        } else if f == 18 {
            ThumbInstr::Format18(format_18::Format18::from(h))
        } else if f == 17 {
            ThumbInstr::Format17(format_17::Format17::from(h))
        } else if f == 16 {
            ThumbInstr::Format16(format_16::Format16::from(h))
        } else if f == 15 {
            ThumbInstr::Format15(format_15::Format15::from(h))
        } else if f == 14 {
            ThumbInstr::Format14(format_14::Instruction::from(h))
        } else if f == 13 {
            ThumbInstr::Format13(format_13::Format13::from(h))
        } else if f == 12 {
            ThumbInstr::Format12(format_12::Format12::from(h))
        } else if f == 11 {
            ThumbInstr::Format11(format_11::Format11::from(h))
        } else if f == 10 {
            ThumbInstr::Format10(format_10::Instruction::from(h))
        } else if f == 9 {
            ThumbInstr::Format09(format_09::Format9::from(h))
        } else if f == 8 {
            ThumbInstr::Format08(format_08::Format8::from(h))
        } else if f == 7 {
            ThumbInstr::Format07(format_07::Format7::from(h))
        } else if f == 6 {
            ThumbInstr::Format06(format_06::Instruction::from(h))
        } else if f == 5 {
            ThumbInstr::Format05(format_05::Format5::from(h))
        } else if f == 4 {
            ThumbInstr::Format04(format_04::Format4::from(h))
        } else if f == 3 {
            ThumbInstr::Format03(format_03::Format3::from(h))
        } else if f == 2 {
            ThumbInstr::Format02(format_02::Format2::from(h))
        } else if f == 1 {
            ThumbInstr::Format01(format_01::Format1::from(h))
        } else {
            ThumbInstr::Undefined(instr)
        }
    }
}

impl ThumbInstr {
    /// Register numbers and operands are in range.
    pub open spec fn wf(self) -> bool {
        match self {
            ThumbInstr::Format01(i) => i.wf(),
            ThumbInstr::Format02(i) => i.wf(),
            ThumbInstr::Format03(i) => i.wf(),
            ThumbInstr::Format04(i) => i.wf(),
            ThumbInstr::Format05(i) => i.wf(),
            ThumbInstr::Format06(i) => i.wf(),
            ThumbInstr::Format07(i) => i.wf(),
            ThumbInstr::Format08(i) => i.wf(),
            ThumbInstr::Format09(i) => i.wf(),
            ThumbInstr::Format10(i) => i.wf(),
            ThumbInstr::Format11(i) => i.wf(),
            ThumbInstr::Format12(i) => i.wf(),
            ThumbInstr::Format13(i) => i.wf(),
            ThumbInstr::Format14(i) => i.wf(),
            ThumbInstr::Format15(i) => i.wf(),
            ThumbInstr::Format16(i) => i.wf(),
            ThumbInstr::Format17(i) => i.wf(),
            ThumbInstr::Format18(i) => i.wf(),
            ThumbInstr::Format19(i) => i.wf(),
            ThumbInstr::Undefined(_) => true,
        }
    }

    /// Whether executing the instruction in state `s` is defined.
    pub open spec fn exec_ok<B: Bus>(self, s: CpuView<B::V>) -> bool {
        match self {
            ThumbInstr::Format01(i) => i.exec_ok::<B>(s),
            ThumbInstr::Format02(i) => i.exec_ok::<B>(s),
            ThumbInstr::Format03(i) => i.exec_ok::<B>(s),
            ThumbInstr::Format04(i) => i.exec_ok::<B>(s),
            ThumbInstr::Format05(i) => i.exec_ok::<B>(s),
            ThumbInstr::Format06(i) => i.exec_ok::<B>(s),
            ThumbInstr::Format07(i) => i.exec_ok::<B>(s),
            ThumbInstr::Format08(i) => i.exec_ok::<B>(s),
            ThumbInstr::Format09(i) => i.exec_ok::<B>(s),
            ThumbInstr::Format10(i) => i.exec_ok::<B>(s),
            ThumbInstr::Format11(i) => i.exec_ok::<B>(s),
            ThumbInstr::Format12(i) => i.exec_ok::<B>(s),
            ThumbInstr::Format13(i) => i.exec_ok::<B>(s),
            ThumbInstr::Format14(i) => i.exec_ok::<B>(s),
            ThumbInstr::Format15(i) => i.exec_ok::<B>(s),
            ThumbInstr::Format16(i) => i.exec_ok::<B>(s),
            ThumbInstr::Format17(i) => i.exec_ok::<B>(s),
            ThumbInstr::Format18(i) => i.exec_ok::<B>(s),
            ThumbInstr::Format19(i) => i.exec_ok::<B>(s),
            ThumbInstr::Undefined(_) => pipeline_loadable::<B>(exception_entry(s, Exception::Undefined)),
        }
    }

    /// Processor state and cycles after executing the instruction in state
    /// `s`; an undefined instruction enters the undefined-instruction exception.
    pub open spec fn spec_exec<B: Bus>(self, s: CpuView<B::V>) -> (Cycle, CpuView<B::V>) {
        match self {
            ThumbInstr::Format01(i) => i.spec_exec::<B>(s),
            ThumbInstr::Format02(i) => i.spec_exec::<B>(s),
            ThumbInstr::Format03(i) => i.spec_exec::<B>(s),
            ThumbInstr::Format04(i) => i.spec_exec::<B>(s),
            ThumbInstr::Format05(i) => i.spec_exec::<B>(s),
            ThumbInstr::Format06(i) => i.spec_exec::<B>(s),
            ThumbInstr::Format07(i) => i.spec_exec::<B>(s),
            ThumbInstr::Format08(i) => i.spec_exec::<B>(s),
            ThumbInstr::Format09(i) => i.spec_exec::<B>(s),
            ThumbInstr::Format10(i) => i.spec_exec::<B>(s),
            ThumbInstr::Format11(i) => i.spec_exec::<B>(s),
            ThumbInstr::Format12(i) => i.spec_exec::<B>(s),
            ThumbInstr::Format13(i) => i.spec_exec::<B>(s),
            ThumbInstr::Format14(i) => i.spec_exec::<B>(s),
            ThumbInstr::Format15(i) => i.spec_exec::<B>(s),
            ThumbInstr::Format16(i) => i.spec_exec::<B>(s),
            ThumbInstr::Format17(i) => i.spec_exec::<B>(s),
            ThumbInstr::Format18(i) => i.spec_exec::<B>(s),
            ThumbInstr::Format19(i) => i.spec_exec::<B>(s),
            ThumbInstr::Undefined(_) => (
                Cycle { i: 0, s: 2, n: 1 },
                spec_load_pipeline::<B>(exception_entry(s, Exception::Undefined)),
            ),
        }
    }
}

impl<B: Bus> Arm7tdmi<B> {
    /// Executes a decoded THUMB instruction.
    pub fn exec_thumb(&mut self, instruction: ThumbInstr) -> (r: Cycle)
        requires
            old(self).wf(),
            instruction.wf(),
            instruction.exec_ok::<B>(old(self)@),
        ensures
            (r, final(self)@) == instruction.spec_exec::<B>(old(self)@),
            final(self).wf(),
    {
        match instruction {
            ThumbInstr::Format01(i) => self.exec_thumb_format1(i),
            ThumbInstr::Format02(i) => self.exec_thumb_format2(i),
            ThumbInstr::Format03(i) => self.exec_thumb_format3(i),
            ThumbInstr::Format04(i) => self.exec_thumb_format4(i),
            ThumbInstr::Format05(i) => self.exec_thumb_format5(i),
            ThumbInstr::Format06(i) => self.exec_thumb_format6(i),
            ThumbInstr::Format07(i) => self.exec_thumb_format7(i),
            ThumbInstr::Format08(i) => self.exec_thumb_format8(i),
            ThumbInstr::Format09(i) => self.exec_thumb_format9(i),
            ThumbInstr::Format10(i) => self.exec_thumb_format10(i),
            ThumbInstr::Format11(i) => self.exec_thumb_format11(i),
            ThumbInstr::Format12(i) => self.exec_thumb_format12(i),
            ThumbInstr::Format13(i) => self.exec_thumb_format13(i),
            ThumbInstr::Format14(i) => self.exec_thumb_format14(i),
            ThumbInstr::Format15(i) => self.exec_thumb_format15(i),
            ThumbInstr::Format16(i) => self.exec_thumb_format16(i),
            ThumbInstr::Format17(i) => self.exec_thumb_format17(i),
            ThumbInstr::Format18(i) => self.exec_thumb_format18(i),
            ThumbInstr::Format19(i) => self.exec_thumb_format19(i),
            ThumbInstr::Undefined(_) => self.handle_exception(Exception::Undefined),
        }
    }
}

/// Every decoded THUMB instruction names registers and operands in range.
pub proof fn lemma_decode_thumb_wf(h: u32)
    ensures
        spec_decode_thumb_half(h).wf(),
{
    broadcast use crate::utils::bits::lemma_field_le;
}

impl ThumbInstr {
    /// The instruction as the listing writes it, followed by a comment
    /// that names its class; an undefined word is written in hexadecimal.
    pub open spec fn spec_text(self) -> Seq<char> {
        match self {
            ThumbInstr::Format01(op) => op.spec_text() + " ; thumb 01"@,
            ThumbInstr::Format02(op) => op.spec_text() + " ; thumb 02"@,
            ThumbInstr::Format03(op) => op.spec_text() + " ; thumb 03"@,
            ThumbInstr::Format04(op) => op.spec_text() + " ; thumb 04"@,
            ThumbInstr::Format05(op) => op.spec_text() + " ; thumb 05"@,
            ThumbInstr::Format06(op) => op.spec_text() + " ; thumb 06"@,
            ThumbInstr::Format07(op) => op.spec_text() + " ; thumb 07"@,
            ThumbInstr::Format08(op) => op.spec_text() + " ; thumb 08"@,
            ThumbInstr::Format09(op) => op.spec_text() + " ; thumb 09"@,
            ThumbInstr::Format10(op) => op.spec_text() + " ; thumb 10"@,
            ThumbInstr::Format11(op) => op.spec_text() + " ; thumb 11"@,
            ThumbInstr::Format12(op) => op.spec_text() + " ; thumb 12"@,
            ThumbInstr::Format13(op) => op.spec_text() + " ; thumb 13"@,
            ThumbInstr::Format14(op) => op.spec_text() + " ; thumb 14"@,
            ThumbInstr::Format15(op) => op.spec_text() + " ; thumb 15"@,
            ThumbInstr::Format16(op) => op.spec_text() + " ; thumb 16"@,
            ThumbInstr::Format17(op) => op.spec_text() + " ; thumb 17"@,
            ThumbInstr::Format18(op) => op.spec_text() + " ; thumb 18"@,
            ThumbInstr::Format19(op) => op.spec_text() + " ; thumb 19"@,
            ThumbInstr::Undefined(op) => hex_text(op as nat) + " ; thumb undefined"@,
        }
    }

    /// The instruction as text (see `spec_text`).
    pub fn text(&self) -> (r: String)
        ensures
            r@ == self.spec_text(),
    {
        match self {
            ThumbInstr::Format01(op) => {
                let mut r = op.text();
                r.append(" ; thumb 01");
                r
            },
            ThumbInstr::Format02(op) => {
                let mut r = op.text();
                r.append(" ; thumb 02");
                r
            },
            ThumbInstr::Format03(op) => {
                let mut r = op.text();
                r.append(" ; thumb 03");
                r
            },
            ThumbInstr::Format04(op) => {
                let mut r = op.text();
                r.append(" ; thumb 04");
                r
            },
            ThumbInstr::Format05(op) => {
                let mut r = op.text();
                r.append(" ; thumb 05");
                r
            },
            ThumbInstr::Format06(op) => {
                let mut r = op.text();
                r.append(" ; thumb 06");
                r
            },
            ThumbInstr::Format07(op) => {
                let mut r = op.text();
                r.append(" ; thumb 07");
                r
            },
            ThumbInstr::Format08(op) => {
                let mut r = op.text();
                r.append(" ; thumb 08");
                r
            },
            ThumbInstr::Format09(op) => {
                let mut r = op.text();
                r.append(" ; thumb 09");
                r
            },
            ThumbInstr::Format10(op) => {
                let mut r = op.text();
                r.append(" ; thumb 10");
                r
            },
            ThumbInstr::Format11(op) => {
                let mut r = op.text();
                r.append(" ; thumb 11");
                r
            },
            ThumbInstr::Format12(op) => {
                let mut r = op.text();
                r.append(" ; thumb 12");
                r
            },
            ThumbInstr::Format13(op) => {
                let mut r = op.text();
                r.append(" ; thumb 13");
                r
            },
            ThumbInstr::Format14(op) => {
                let mut r = op.text();
                r.append(" ; thumb 14");
                r
            },
            ThumbInstr::Format15(op) => {
                let mut r = op.text();
                r.append(" ; thumb 15");
                r
            },
            ThumbInstr::Format16(op) => {
                let mut r = op.text();
                r.append(" ; thumb 16");
                r
            },
            ThumbInstr::Format17(op) => {
                let mut r = op.text();
                r.append(" ; thumb 17");
                r
            },
            ThumbInstr::Format18(op) => {
                let mut r = op.text();
                r.append(" ; thumb 18");
                r
            },
            ThumbInstr::Format19(op) => {
                let mut r = op.text();
                r.append(" ; thumb 19");
                r
            },
            ThumbInstr::Undefined(op) => {
                let mut r = String::new();
                write_hex(&mut r, *op as u32);
                r.append(" ; thumb undefined");
                r
            },
        }
    }
}

/// The THUMB instruction classes that move and compute on registers.
#[derive(Debug, Clone, Copy, PartialEq, Eq, Structural)]
pub enum InstructionFormat {
    /// Move shifted register
    Format1(format_01::Format1),
    /// Add/Substract
    Format2(format_02::Format2),
    /// Move/Compare/Add/Substract immediate
    Format3(format_03::Format3),
    /// ALU operations
    Format4(format_04::Format4),
}

impl InstructionFormat {
    /// The instruction as the listing writes it, followed by a comment
    /// that names its class.
    pub open spec fn spec_text(self) -> Seq<char> {
        match self {
            InstructionFormat::Format1(op) => op.spec_text() + " ; format 1"@,
            InstructionFormat::Format2(op) => op.spec_text() + " ; format 2"@,
            InstructionFormat::Format3(op) => op.spec_text() + " ; format 3"@,
            InstructionFormat::Format4(op) => op.spec_text() + " ; format 4"@,
        }
    }

    /// The instruction as text (see `spec_text`).
    pub fn text(&self) -> (r: String)
        ensures
            r@ == self.spec_text(),
    {
        match self {
            InstructionFormat::Format1(op) => {
                let mut r = op.text();
                r.append(" ; format 1");
                r
            },
            InstructionFormat::Format2(op) => {
                let mut r = op.text();
                r.append(" ; format 2");
                r
            },
            InstructionFormat::Format3(op) => {
                let mut r = op.text();
                r.append(" ; format 3");
                r
            },
            InstructionFormat::Format4(op) => {
                let mut r = op.text();
                r.append(" ; format 4");
                r
            },
        }
    }
}

} // verus!
