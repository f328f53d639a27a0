pub mod format_01;
pub mod format_02;
pub mod format_03;
pub mod format_04;
pub mod format_05;
pub mod format_06;
pub mod format_07;
pub mod format_08;
pub mod format_09;
pub mod format_10;

use vstd::prelude::*;
use vstd::string::*;

use crate::arm7tdmi::{Arm7tdmi, CpuView};
use crate::arm7tdmi::common::{Cycle, Exception};
use crate::arm7tdmi::pipeline::{exception_entry, pipeline_loadable, spec_load_pipeline};
use crate::bus::memory::Bus;
use crate::utils::bits::{bit, field, get_bits, is_set};
use crate::utils::text::{hex_text, write_hex};

verus! {

/// A decoded ARM instruction.
#[derive(Debug, Clone, Copy, PartialEq, Eq, Structural)]
pub enum ArmInstr {
    /// Data processing
    Format01(format_01::Format1),
    /// PSR transfer
    Format02(format_02::Format2),
    /// Branch and exchange
    Format03(format_03::Format3),
    /// Multiply and multiply-accumulate
    Format04(format_04::Instruction),
    /// Multiply long and multiply-accumulate long
    Format05(format_05::Instruction),
    /// Single data swap
    Format06(format_06::Instruction),
    /// Half-word and signed data transfer
    Format07(format_07::Instruction),
    /// Block data transfer
    Format08(format_08::Instruction),
    /// Branch and branch with link
    Format09(format_09::Instruction),
    /// Software interrupt
    Format10(format_10::Instruction),
    /// Undefined ARM instruction
    Undefined(u32),
}

/// The instruction class of an ARM word, by the bit patterns of bits 27-4,
/// tried in order (0 when no pattern matches).
pub open spec fn spec_arm_format(w: u32) -> u8 {
    if field(w, 24, 0xF) == 0xF {
        10
    } else if field(w, 25, 0x7) == 0b101 {
        9
    } else if field(w, 25, 0x7) == 0b100 {
        8
    } else if (field(w, 25, 0x7) == 0 && !bit(w, 20) && field(w, 4, 0xF) == 0b1011) || (field(
        w,
        25,
        0x7,
    ) == 0 && bit(w, 20) && bit(w, 7) && bit(w, 4)) {
        7
    } else if field(w, 23, 0x1F) == 0b00010 && field(w, 20, 0x3) == 0 && field(w, 8, 0xF) == 0
        && field(w, 4, 0xF) == 0b1001 {
        6
    } else if field(w, 23, 0x1F) == 0b00001 && field(w, 4, 0xF) == 0b1001 {
        5
    } else if field(w, 22, 0x3F) == 0 && field(w, 4, 0xF) == 0b1001 {
        4
    } else if field(w, 4, 0xFF_FFFF) == 0x12_FFF1 {
        3
    } else if field(w, 26, 0x3) == 0 && field(w, 23, 0x3) == 0b10 && !bit(w, 20) {
        2
    } else if field(w, 26, 0x3) == 0 {
        1
    } else {
        0
    }
}

/// Whether decoding `w` is defined: its class has a condition other than
/// 0xF and, for half-word transfers, a valid opcode.
pub open spec fn arm_decodable(w: u32) -> bool {
    let f = spec_arm_format(w);
    if f == 0 {
        true
    } else if f == 7 {
        format_07::Instruction::decodable(w)
    } else {
        field(w, 28, 0xF) < 15
    }
}

pub open spec fn spec_decode_arm(w: u32) -> ArmInstr {
    let f = spec_arm_format(w);
    if f == 10 {
        ArmInstr::Format10(format_10::Instruction::spec_from(w))
    } else if f == 9 {
        ArmInstr::Format09(format_09::Instruction::spec_from(w))
    } else if f == 8 {
        ArmInstr::Format08(format_08::Instruction::spec_from(w))
    } else if f == 7 {
        ArmInstr::Format07(format_07::Instruction::spec_from(w))
    } else if f == 6 {
        ArmInstr::Format06(format_06::Instruction::spec_from(w))
    } else if f == 5 {
        ArmInstr::Format05(format_05::Instruction::spec_from(w))
    } else if f == 4 {
        ArmInstr::Format04(format_04::Instruction::spec_from(w))
    } else if f == 3 {
        ArmInstr::Format03(format_03::Format3::spec_from(w))
    } else if f == 2 {
        ArmInstr::Format02(format_02::Format2::spec_from(w))
    } else if f == 1 {
        ArmInstr::Format01(format_01::Format1::spec_from(w))
    } else {
        ArmInstr::Undefined(w)
    }
}

/// The instruction class of an ARM word (see `spec_arm_format`).
pub fn arm_format(w: u32) -> (r: u8)
    ensures
        r == spec_arm_format(w),
{
    if get_bits(w, 24, 0xF) == 0xF {
        10
    } else if get_bits(w, 25, 0x7) == 0b101 {
        9
    } else if get_bits(w, 25, 0x7) == 0b100 {
        8
    } else if (get_bits(w, 25, 0x7) == 0 && !is_set(w, 20) && get_bits(w, 4, 0xF) == 0b1011) || (
    get_bits(w, 25, 0x7) == 0 && is_set(w, 20) && is_set(w, 7) && is_set(w, 4)) {
        7
    } else if get_bits(w, 23, 0x1F) == 0b00010 && get_bits(w, 20, 0x3) == 0 && get_bits(w, 8, 0xF)
        == 0 && get_bits(w, 4, 0xF) == 0b1001 {
        6
    } else if get_bits(w, 23, 0x1F) == 0b00001 && get_bits(w, 4, 0xF) == 0b1001 {
        5
    } else if get_bits(w, 22, 0x3F) == 0 && get_bits(w, 4, 0xF) == 0b1001 {
        4
    } else if get_bits(w, 4, 0xFF_FFFF) == 0x12_FFF1 {
        3
    } else if get_bits(w, 26, 0x3) == 0 && get_bits(w, 23, 0x3) == 0b10 && !is_set(w, 20) {
        2
    } else if get_bits(w, 26, 0x3) == 0 {
        1
    } else {
        0
    }
}

impl<B: Bus> Arm7tdmi<B> {
    /// Decodes an ARM instruction word.
    pub fn decode_arm(&self, word: u32) -> (r: ArmInstr)
        requires
            arm_decodable(word),
        ensures
            r == spec_decode_arm(word),
    {
        let f = arm_format(word);
        if f == 10 {
            ArmInstr::Format10(format_10::Instruction::from(word))
        } else if f == 9 {
            ArmInstr::Format09(format_09::Instruction::from(word))
        } else if f == 8 {
            ArmInstr::Format08(format_08::Instruction::from(word))
        } else if f == 7 {
            ArmInstr::Format07(format_07::Instruction::from(word))
        } else if f == 6 {
            ArmInstr::Format06(format_06::Instruction::from(word))
        } else if f == 5 {
            ArmInstr::Format05(format_05::Instruction::from(word))
        } else if f == 4 {
            ArmInstr::Format04(format_04::Instruction::from(word))
        } else if f == 3 {
            ArmInstr::Format03(format_03::Format3::from(word))
        } else if f == 2 {
            ArmInstr::Format02(format_02::Format2::from(word))
        } else if f == 1 {
            ArmInstr::Format01(format_01::Format1::from(word))
        } else {
            ArmInstr::Undefined(word)
        }
    }
}

impl ArmInstr {
    /// Register numbers and operands are in range.
    pub open spec fn wf(self) -> bool {
        match self {
            ArmInstr::Format01(i) => i.wf(),
            ArmInstr::Format02(i) => i.wf(),
            ArmInstr::Format03(i) => i.wf(),
            ArmInstr::Format04(i) => i.wf(),
            ArmInstr::Format05(i) => i.wf(),
            ArmInstr::Format06(i) => i.wf(),
            ArmInstr::Format07(i) => i.wf(),
            ArmInstr::Format08(i) => i.wf(),
            ArmInstr::Format09(i) => i.wf(),
            ArmInstr::Format10(i) => i.wf(),
            ArmInstr::Undefined(_) => true,
        }
    }

    /// Whether executing the instruction in state `s` is defined.
    pub open spec fn exec_ok<B: Bus>(self, s: CpuView<B::V>) -> bool {
        match self {
            ArmInstr::Format01(i) => i.exec_ok::<B>(s),
            ArmInstr::Format02(i) => i.exec_ok::<B>(s),
            ArmInstr::Format03(i) => i.exec_ok::<B>(s),
            ArmInstr::Format04(i) => i.exec_ok::<B>(s),
            ArmInstr::Format05(i) => i.exec_ok::<B>(s),
            ArmInstr::Format06(i) => i.exec_ok::<B>(s),
            ArmInstr::Format07(i) => i.exec_ok::<B>(s),
            ArmInstr::Format08(i) => i.exec_ok::<B>(s),
            ArmInstr::Format09(i) => i.exec_ok::<B>(s),
            ArmInstr::Format10(i) => i.exec_ok::<B>(s),
            ArmInstr::Undefined(_) => pipeline_loadable::<B>(exception_entry(s, Exception::Undefined)),
        }
    }

    /// Processor state and cycles after executing the instruction in state
    /// `s`; an undefined instruction enters the undefined-instruction exception.
    pub open spec fn spec_exec<B: Bus>(self, s: CpuView<B::V>) -> (Cycle, CpuView<B::V>) {
        match self {
            ArmInstr::Format01(i) => i.spec_exec::<B>(s),
            ArmInstr::Format02(i) => i.spec_exec::<B>(s),
            ArmInstr::Format03(i) => i.spec_exec::<B>(s),
            ArmInstr::Format04(i) => i.spec_exec::<B>(s),
            ArmInstr::Format05(i) => i.spec_exec::<B>(s),
            ArmInstr::Format06(i) => i.spec_exec::<B>(s),
            ArmInstr::Format07(i) => i.spec_exec::<B>(s),
            ArmInstr::Format08(i) => i.spec_exec::<B>(s),
            ArmInstr::Format09(i) => i.spec_exec::<B>(s),
            ArmInstr::Format10(i) => i.spec_exec::<B>(s),
            ArmInstr::Undefined(_) => (
                Cycle { i: 0, s: 2, n: 1 },
                spec_load_pipeline::<B>(exception_entry(s, Exception::Undefined)),
            ),
        }
    }
}

impl<B: Bus> Arm7tdmi<B> {
    /// Executes a decoded ARM instruction.
    pub fn exec_arm(&mut self, instruction: ArmInstr) -> (r: Cycle)
        requires
            old(self).wf(),
            instruction.wf(),
            instruction.exec_ok::<B>(old(self)@),
        ensures
            (r, final(self)@) == instruction.spec_exec::<B>(old(self)@),
            final(self).wf(),
    {
        match instruction {
            ArmInstr::Format01(i) => self.exec_arm_format01(i),
            ArmInstr::Format02(i) => self.exec_arm_format02(i),
            ArmInstr::Format03(i) => self.exec_arm_format03(i),
            ArmInstr::Format04(i) => self.exec_arm_format04(i),
            ArmInstr::Format05(i) => self.exec_arm_format05(i),
            ArmInstr::Format06(i) => self.exec_arm_format06(i),
            ArmInstr::Format07(i) => self.exec_arm_format07(i),
            ArmInstr::Format08(i) => self.exec_arm_format08(i),
            ArmInstr::Format09(i) => self.exec_arm_format09(i),
            ArmInstr::Format10(i) => self.exec_arm_format10(i),
            ArmInstr::Undefined(_) => self.handle_exception(Exception::Undefined),
        }
    }
}

/// Every decoded ARM instruction names registers and operands in range.
pub proof fn lemma_decode_arm_wf(w: u32)
    ensures
        spec_decode_arm(w).wf(),
{
    broadcast use crate::utils::bits::lemma_field_le;
}

impl ArmInstr {
    /// The instruction as the listing writes it, followed by a comment
    /// that names its class; an undefined word is written in hexadecimal.
    pub open spec fn spec_text(self) -> Seq<char> {
        match self {
            ArmInstr::Format01(op) => op.spec_text() + " ; arm 01"@,
            ArmInstr::Format02(op) => op.spec_text() + " ; arm 02"@,
            ArmInstr::Format03(op) => op.spec_text() + " ; arm 03"@,
            ArmInstr::Format04(op) => op.spec_text() + " ; arm 04"@,
            ArmInstr::Format05(op) => op.spec_text() + " ; arm 05"@,
            ArmInstr::Format06(op) => op.spec_text() + " ; arm 06"@,
            ArmInstr::Format07(op) => op.spec_text() + " ; arm 07"@,
            ArmInstr::Format08(op) => op.spec_text() + " ; arm 08"@,
            ArmInstr::Format09(op) => op.spec_text() + " ; arm 09"@,
            ArmInstr::Format10(op) => op.spec_text() + " ; arm 10"@,
            ArmInstr::Undefined(op) => hex_text(op as nat) + " ; arm undefined"@,
        }
    }

    /// The instruction as text (see `spec_text`).
    pub fn text(&self) -> (r: String)
        ensures
            r@ == self.spec_text(),
    {
        match self {
            ArmInstr::Format01(op) => {
                let mut r = op.text();
                r.append(" ; arm 01");
                r
            },
            ArmInstr::Format02(op) => {
                let mut r = op.text();
                r.append(" ; arm 02");
                r
            },
            ArmInstr::Format03(op) => {
                let mut r = op.text();
                r.append(" ; arm 03");
                r
            },
            ArmInstr::Format04(op) => {
                let mut r = op.text();
                r.append(" ; arm 04");
                r
            },
            ArmInstr::Format05(op) => {
                let mut r = op.text();
                r.append(" ; arm 05");
                r
            },
            ArmInstr::Format06(op) => {
                let mut r = op.text();
                r.append(" ; arm 06");
                r
            },
            ArmInstr::Format07(op) => {
                let mut r = op.text();
                r.append(" ; arm 07");
                r
            },
            ArmInstr::Format08(op) => {
                let mut r = op.text();
                r.append(" ; arm 08");
                r
            },
            ArmInstr::Format09(op) => {
                let mut r = op.text();
                r.append(" ; arm 09");
                r
            },
            ArmInstr::Format10(op) => {
                let mut r = op.text();
                r.append(" ; arm 10");
                r
            },
            ArmInstr::Undefined(op) => {
                let mut r = String::new();
                write_hex(&mut r, *op);
                r.append(" ; arm undefined");
                r
            },
        }
    }
}

} // verus!
