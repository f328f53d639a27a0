use vstd::prelude::*;

use crate::bus::memory::Bus;
use crate::bus::registers::interrupt::InterruptFlag;
use crate::bus::types::{Cycle, DataType};
use crate::utils::bits::{bit, field, get_bits16, is_set16, update16};

verus! {

/// DMA channels.
#[derive(Debug, Clone, Copy, PartialEq, Eq, Structural)]
pub enum DmaChannel {
    Dma0,
    Dma1,
    Dma2,
    Dma3,
}

/// What starts a DMA of "special" start timing, by channel.
#[derive(Debug, Clone, Copy, PartialEq, Eq, Structural)]
pub enum DmaSpecialTiming {
    Unused,
    FifoA,
    FifoB,
    VideoCapture,
}

/// When a DMA starts.
#[derive(Debug, Clone, Copy, PartialEq, Eq, Structural)]
pub enum DmaStartTiming {
    Immediate,
    VBlank,
    HBlank,
    Special,
}

/// How an address moves after each unit of a DMA.
#[derive(Debug, Clone, Copy, PartialEq, Eq, Structural)]
pub enum DmaAddressControl {
    Increment,
    Decrement,
    Fixed,
    IncrementReload,
}

/// The timers whose overflows can feed the sound FIFOs.
#[derive(Debug, Clone, Copy, PartialEq, Eq, Structural)]
pub enum DmaTimer {
    Timer0,
    Timer1,
}

impl DmaChannel {
    pub open spec fn spec_special_timing(self) -> DmaSpecialTiming {
        match self {
            DmaChannel::Dma0 => DmaSpecialTiming::Unused,
            DmaChannel::Dma1 => DmaSpecialTiming::FifoA,
            DmaChannel::Dma2 => DmaSpecialTiming::FifoB,
            DmaChannel::Dma3 => DmaSpecialTiming::VideoCapture,
        }
    }

    pub open spec fn spec_interrupt(self) -> InterruptFlag {
        match self {
            DmaChannel::Dma0 => InterruptFlag::Dma0,
            DmaChannel::Dma1 => InterruptFlag::Dma1,
            DmaChannel::Dma2 => InterruptFlag::Dma2,
            DmaChannel::Dma3 => InterruptFlag::Dma3,
        }
    }

    /// What starts a DMA of "special" start timing on this channel.
    pub fn special_timing(self) -> (r: DmaSpecialTiming)
        ensures
            r == self.spec_special_timing(),
    {
        match self {
            DmaChannel::Dma0 => DmaSpecialTiming::Unused,
            DmaChannel::Dma1 => DmaSpecialTiming::FifoA,
            DmaChannel::Dma2 => DmaSpecialTiming::FifoB,
            DmaChannel::Dma3 => DmaSpecialTiming::VideoCapture,
        }
    }

    /// The interrupt raised at the end of a transfer on this channel.
    pub fn interrupt(self) -> (r: InterruptFlag)
        ensures
            r == self.spec_interrupt(),
    {
        match self {
            DmaChannel::Dma0 => InterruptFlag::Dma0,
            DmaChannel::Dma1 => InterruptFlag::Dma1,
            DmaChannel::Dma2 => InterruptFlag::Dma2,
            DmaChannel::Dma3 => InterruptFlag::Dma3,
        }
    }
}

/// A DMA channel's registers: source and destination address, word count
/// (`cnt_l`) and control (`cnt_h`).
#[derive(Debug, Clone, Copy, PartialEq, Eq, Structural)]
pub struct Dma {
    pub sad: u32,
    pub dad: u32,
    pub cnt_l: u16,
    pub cnt_h: u16,
    pub channel: DmaChannel,
}

impl View for Dma {
    type V = Dma;

    open spec fn view(&self) -> Dma {
        *self
    }
}

/// A transfer about to run: its channel and parameters.
#[derive(Debug, Clone, Copy, PartialEq, Eq, Structural)]
pub struct DmaData {
    pub channel: DmaChannel,
    pub src_addr: u32,
    pub dst_addr: u32,
    pub transfer_len: u32,
    pub transfer_type: DataType,
    pub src_addr_ctrl: DmaAddressControl,
    pub dst_addr_ctrl: DmaAddressControl,
    pub irq_enable: bool,
}

/// A transfer that ran and the cycles it took.
#[derive(Debug, Clone, Copy, PartialEq, Eq, Structural)]
pub struct DmaResult {
    pub data: DmaData,
    pub cycles: Cycle,
}

pub open spec fn spec_address_control(v: u32) -> DmaAddressControl {
    if v == 0 {
        DmaAddressControl::Increment
    } else if v == 1 {
        DmaAddressControl::Decrement
    } else if v == 2 {
        DmaAddressControl::Fixed
    } else {
        DmaAddressControl::IncrementReload
    }
}

impl Dma {
    pub open spec fn spec_new(channel: DmaChannel) -> Dma {
        Dma { sad: 0, dad: 0, cnt_l: 0, cnt_h: 0, channel }
    }

    pub open spec fn spec_dst_addr_control(self) -> DmaAddressControl {
        spec_address_control(field(self.cnt_h as u32, 5, 0x3))
    }

    /// Whether the source address control names a mode (3 is prohibited).
    pub open spec fn src_addr_control_valid(self) -> bool {
        field(self.cnt_h as u32, 7, 0x3) != 3
    }

    pub open spec fn spec_src_addr_control(self) -> DmaAddressControl {
        spec_address_control(field(self.cnt_h as u32, 7, 0x3))
    }

    pub open spec fn spec_repeat(self) -> bool {
        bit(self.cnt_h as u32, 7)
    }

    pub open spec fn spec_transfer_type(self) -> DataType {
        if bit(self.cnt_h as u32, 10) {
            DataType::Word
        } else {
            DataType::HWord
        }
    }

    pub open spec fn spec_start_timing(self) -> DmaStartTiming {
        let v = field(self.cnt_h as u32, 12, 0x3);
        if v == 0 {
            DmaStartTiming::Immediate
        } else if v == 1 {
            DmaStartTiming::VBlank
        } else if v == 2 {
            DmaStartTiming::HBlank
        } else {
            DmaStartTiming::Special
        }
    }

    pub open spec fn spec_irq_enable(self) -> bool {
        bit(self.cnt_h as u32, 14)
    }

    pub open spec fn spec_dma_enable(self) -> bool {
        bit(self.cnt_h as u32, 15)
    }

    /// Number of units to transfer: a count of 0 means the channel's
    /// maximum (0x10000 on channel 3, 0x4000 on the others), and channels
    /// 0-2 use only the low 14 bits of the count.
    pub open spec fn spec_transfer_len(self) -> u32 {
        if self.channel == DmaChannel::Dma3 {
            if self.cnt_l == 0 {
                0x10000
            } else {
                self.cnt_l as u32
            }
        } else if self.cnt_l == 0 {
            0x4000
        } else {
            (self.cnt_l & 0x3FFF) as u32
        }
    }

    pub open spec fn spec_data(self) -> DmaData {
        DmaData {
            channel: self.channel,
            src_addr: self.sad,
            dst_addr: self.dad,
            transfer_len: self.spec_transfer_len(),
            transfer_type: self.spec_transfer_type(),
            src_addr_ctrl: self.spec_src_addr_control(),
            dst_addr_ctrl: self.spec_dst_addr_control(),
            irq_enable: self.spec_irq_enable(),
        }
    }

    pub fn new(channel: DmaChannel) -> (r: Dma)
        ensures
            r == Dma::spec_new(channel),
    {
        Dma { sad: 0, dad: 0, cnt_l: 0, cnt_h: 0, channel }
    }

    /// Destination address control (bits 6-5).
    pub fn dst_addr_control(&self) -> (r: DmaAddressControl)
        ensures
            r == self.spec_dst_addr_control(),
    {
        let v = get_bits16(self.cnt_h, 5, 0x3);
        if v == 0 {
            DmaAddressControl::Increment
        } else if v == 1 {
            DmaAddressControl::Decrement
        } else if v == 2 {
            DmaAddressControl::Fixed
        } else {
            DmaAddressControl::IncrementReload
        }
    }

    /// Source address control (bits 8-7); the value 3 is prohibited.
    pub fn src_addr_control(&self) -> (r: DmaAddressControl)
        requires
            self.src_addr_control_valid(),
        ensures
            r == self.spec_src_addr_control(),
            r != DmaAddressControl::IncrementReload,
    {
        let v = get_bits16(self.cnt_h, 7, 0x3);
        if v == 0 {
            DmaAddressControl::Increment
        } else if v == 1 {
            DmaAddressControl::Decrement
        } else {
            DmaAddressControl::Fixed
        }
    }

    /// Whether the channel stays enabled after a transfer (bit 7). The
    /// register table of the debugger labels bit 9 "DMA Repeat"; the
    /// transfer logic reads bit 7.
    pub fn repeat(&self) -> (r: bool)
        ensures
            r == self.spec_repeat(),
    {
        is_set16(self.cnt_h, 7)
    }

    /// Unit of transfer (bit 10): half-words or words.
    pub fn transfer_type(&self) -> (r: DataType)
        ensures
            r == self.spec_transfer_type(),
    {
        if is_set16(self.cnt_h, 10) {
            DataType::Word
        } else {
            DataType::HWord
        }
    }

    /// Start timing (bits 13-12).
    pub fn start_timing(&self) -> (r: DmaStartTiming)
        ensures
            r == self.spec_start_timing(),
    {
        let v = get_bits16(self.cnt_h, 12, 0x3);
        if v == 0 {
            DmaStartTiming::Immediate
        } else if v == 1 {
            DmaStartTiming::VBlank
        } else if v == 2 {
            DmaStartTiming::HBlank
        } else {
            DmaStartTiming::Special
        }
    }

    /// Whether the end of a transfer raises an interrupt (bit 14).
    pub fn irq_enable(&self) -> (r: bool)
        ensures
            r == self.spec_irq_enable(),
    {
        is_set16(self.cnt_h, 14)
    }

    /// Whether the channel is enabled (bit 15).
    pub fn dma_enable(&self) -> (r: bool)
        ensures
            r == self.spec_dma_enable(),
    {
        is_set16(self.cnt_h, 15)
    }

    /// Clears the enable bit.
    pub fn disable(&mut self)
        ensures
            final(self).cnt_h as u32 == crate::utils::bits::with_bit(old(self).cnt_h as u32, 15, false),
            final(self).sad == old(self).sad,
            final(self).dad == old(self).dad,
            final(self).cnt_l == old(self).cnt_l,
            final(self).channel == old(self).channel,
            !final(self).spec_dma_enable(),
    {
        self.cnt_h = update16(self.cnt_h, 15, false);
    }

    /// Number of units to transfer (see `spec_transfer_len`).
    pub fn transfer_len(&self) -> (r: u32)
        ensures
            r == self.spec_transfer_len(),
    {
        match self.channel {
            DmaChannel::Dma3 => {
                if self.cnt_l == 0 {
                    0x10000
                } else {
                    self.cnt_l as u32
                }
            },
            _ => {
                if self.cnt_l == 0 {
                    0x4000
                } else {
                    (self.cnt_l & 0x3FFF) as u32
                }
            },
        }
    }

    /// What starts a DMA of "special" start timing on this channel.
    pub fn special_timing(&self) -> (r: DmaSpecialTiming)
        ensures
            r == self.channel.spec_special_timing(),
    {
        self.channel.special_timing()
    }

    /// The parameters of a transfer on this channel.
    pub fn get_data(&self) -> (r: DmaData)
        requires
            self.src_addr_control_valid(),
        ensures
            r == self.spec_data(),
    {
        DmaData {
            channel: self.channel,
            src_addr: self.sad,
            dst_addr: self.dad,
            transfer_len: self.transfer_len(),
            transfer_type: self.transfer_type(),
            src_addr_ctrl: self.src_addr_control(),
            dst_addr_ctrl: self.dst_addr_control(),
            irq_enable: self.irq_enable(),
        }
    }
}

impl Dma {
    /// Every register of the channel, as a debugger sees it: bytes 0-3 the
    /// source, 4-7 the destination, 8-9 the count and 10-11 the control.
    pub open spec fn spec_peek_byte(self, address: u32) -> u8 {
        let o = address % 12;
        if o <= 3 {
            <u32 as Bus>::spec_read_byte(self.sad, address)
        } else if o <= 7 {
            <u32 as Bus>::spec_read_byte(self.dad, address)
        } else if o <= 9 {
            <u16 as Bus>::spec_read_byte(self.cnt_l, address)
        } else {
            <u16 as Bus>::spec_read_byte(self.cnt_h, address)
        }
    }

    /// Reads any register byte of the channel (see `spec_peek_byte`).
    pub fn peek_byte(&self, address: u32) -> (r: u8)
        ensures
            r == self.spec_peek_byte(address),
    {
        let o = address % 12;
        if o <= 3 {
            self.sad.read_byte(address)
        } else if o <= 7 {
            self.dad.read_byte(address)
        } else if o <= 9 {
            self.cnt_l.read_byte(address)
        } else {
            self.cnt_h.read_byte(address)
        }
    }
}

impl Bus for Dma {
    /// Only the control register (bytes 10-11 of the 12) reads back.
    open spec fn spec_read_byte(v: Dma, address: u32) -> u8 {
        if address % 12 >= 10 {
            <u16 as Bus>::spec_read_byte(v.cnt_h, address)
        } else {
            0
        }
    }

    /// Bytes 0-3 write the source, 4-7 the destination, 8-9 the count and
    /// 10-11 the control register.
    open spec fn spec_write_byte(v: Dma, address: u32, value: u8) -> Dma {
        let o = address % 12;
        if o <= 3 {
            Dma { sad: <u32 as Bus>::spec_write_byte(v.sad, address, value), ..v }
        } else if o <= 7 {
            Dma { dad: <u32 as Bus>::spec_write_byte(v.dad, address, value), ..v }
        } else if o <= 9 {
            Dma { cnt_l: <u16 as Bus>::spec_write_byte(v.cnt_l, address, value), ..v }
        } else {
            Dma { cnt_h: <u16 as Bus>::spec_write_byte(v.cnt_h, address, value), ..v }
        }
    }

    fn read_byte(&self, address: u32) -> (r: u8) {
        if address % 12 >= 10 {
            self.cnt_h.read_byte(address)
        } else {
            0
        }
    }

    fn write_byte(&mut self, address: u32, value: u8) {
        let o = address % 12;
        if o <= 3 {
            self.sad.write_byte(address, value);
        } else if o <= 7 {
            self.dad.write_byte(address, value);
        } else if o <= 9 {
            self.cnt_l.write_byte(address, value);
        } else {
            self.cnt_h.write_byte(address, value);
        }
    }
}

} // verus!
