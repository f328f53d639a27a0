use vstd::prelude::*;

use crate::bus::debug::types::{Flag, RegisterEntry, RegisterSize};

verus! {

impl RegisterEntry {
    /// The display control register: video mode, frame select and layer enables.
    pub fn dispcnt() -> (r: RegisterEntry)
        ensures
            r.name == "DISPCNT",
            r.address == 0x000,
            r.size == RegisterSize::HWord,
            r.flags@.len() == 14,
            r.flags@[0].name == "BG Mode",
            r.flags@[0].start == 0,
            r.flags@[0].length == 3,
            r.flags@[0].mappings is None,
            r.flags@[1].name == "unused",
            r.flags@[1].start == 3,
            r.flags@[1].length == 1,
            r.flags@[1].mappings is None,
            r.flags@[2].name == "Display Frame Select",
            r.flags@[2].start == 4,
            r.flags@[2].length == 1,
            r.flags@[2].mappings is None,
            r.flags@[3].name == "H-Blank Interval Free",
            r.flags@[3].start == 5,
            r.flags@[3].length == 1,
            r.flags@[3].mappings is None,
            r.flags@[4].name == "OBJ Character VRAM Maping",
            r.flags@[4].start == 6,
            r.flags@[4].length == 1,
            r.flags@[4].mappings matches Some(m) && m@ == seq![(0u8, "2D"), (1u8, "1D")],
            r.flags@[5].name == "Forced Blank",
            r.flags@[5].start == 7,
            r.flags@[5].length == 1,
            r.flags@[5].mappings is None,
            r.flags@[6].name == "BG0 enabled",
            r.flags@[6].start == 8,
            r.flags@[6].length == 1,
            r.flags@[6].mappings is None,
            r.flags@[7].name == "BG1 enabled",
            r.flags@[7].start == 9,
            r.flags@[7].length == 1,
            r.flags@[7].mappings is None,
            r.flags@[8].name == "BG2 enabled",
            r.flags@[8].start == 10,
            r.flags@[8].length == 1,
            r.flags@[8].mappings is None,
            r.flags@[9].name == "BG3 enabled",
            r.flags@[9].start == 11,
            r.flags@[9].length == 1,
            r.flags@[9].mappings is None,
            r.flags@[10].name == "OBJ enabled",
            r.flags@[10].start == 12,
            r.flags@[10].length == 1,
            r.flags@[10].mappings is None,
            r.flags@[11].name == "Window 0 Display Flag",
            r.flags@[11].start == 13,
            r.flags@[11].length == 1,
            r.flags@[11].mappings is None,
            r.flags@[12].name == "Window 1 Display Flag",
            r.flags@[12].start == 14,
            r.flags@[12].length == 1,
            r.flags@[12].mappings is None,
            r.flags@[13].name == "OBJ Display Flag",
            r.flags@[13].start == 15,
            r.flags@[13].length == 1,
            r.flags@[13].mappings is None,
    {
        RegisterEntry {
            name: "DISPCNT",
            address: 0x000,
            size: RegisterSize::HWord,
            flags: vec![
                Flag::new("BG Mode", 0, 3),
                Flag::unused(3, 1),
                Flag::new("Display Frame Select", 4, 1),
                Flag::new("H-Blank Interval Free", 5, 1),
                Flag::new("OBJ Character VRAM Maping", 6, 1).map(vec![(0u8, "2D"), (1u8, "1D")]),
                Flag::new("Forced Blank", 7, 1),
                Flag::new("BG0 enabled", 8, 1),
                Flag::new("BG1 enabled", 9, 1),
                Flag::new("BG2 enabled", 10, 1),
                Flag::new("BG3 enabled", 11, 1),
                Flag::new("OBJ enabled", 12, 1),
                Flag::new("Window 0 Display Flag", 13, 1),
                Flag::new("Window 1 Display Flag", 14, 1),
                Flag::new("OBJ Display Flag", 15, 1),
            ],
        }
    }

    /// The display status register: blank and counter-match flags and their interrupt enables.
    pub fn dispstat() -> (r: RegisterEntry)
        ensures
            r.name == "DISPSTAT",
            r.address == 0x004,
            r.size == RegisterSize::HWord,
            r.flags@.len() == 8,
            r.flags@[0].name == "V-Blank",
            r.flags@[0].start == 0,
            r.flags@[0].length == 1,
            r.flags@[0].mappings is None,
            r.flags@[1].name == "H-Blank",
            r.flags@[1].start == 1,
            r.flags@[1].length == 1,
            r.flags@[1].mappings is None,
            r.flags@[2].name == "V-Counter",
            r.flags@[2].start == 2,
            r.flags@[2].length == 1,
            r.flags@[2].mappings is None,
            r.flags@[3].name == "V-Blank IRQ enable",
            r.flags@[3].start == 3,
            r.flags@[3].length == 1,
            r.flags@[3].mappings is None,
            r.flags@[4].name == "H-Blank IRQ enable",
            r.flags@[4].start == 4,
            r.flags@[4].length == 1,
            r.flags@[4].mappings is None,
            r.flags@[5].name == "V-Counter IRQ enable",
            r.flags@[5].start == 5,
            r.flags@[5].length == 1,
            r.flags@[5].mappings is None,
            r.flags@[6].name == "unused",
            r.flags@[6].start == 6,
            r.flags@[6].length == 2,
            r.flags@[6].mappings is None,
            r.flags@[7].name == "V-Count Setting",
            r.flags@[7].start == 8,
            r.flags@[7].length == 8,
            r.flags@[7].mappings is None,
    {
        RegisterEntry {
            name: "DISPSTAT",
            address: 0x004,
            size: RegisterSize::HWord,
            flags: vec![
                Flag::new("V-Blank", 0, 1),
                Flag::new("H-Blank", 1, 1),
                Flag::new("V-Counter", 2, 1),
                Flag::new("V-Blank IRQ enable", 3, 1),
                Flag::new("H-Blank IRQ enable", 4, 1),
                Flag::new("V-Counter IRQ enable", 5, 1),
                Flag::unused(6, 2),
                Flag::new("V-Count Setting", 8, 8),
            ],
        }
    }

    /// The vertical counter: the scanline being drawn.
    pub fn vcount() -> (r: RegisterEntry)
        ensures
            r.name == "VCOUNT",
            r.address == 0x006,
            r.size == RegisterSize::HWord,
            r.flags@.len() == 2,
            r.flags@[0].name == "Scanline",
            r.flags@[0].start == 0,
            r.flags@[0].length == 8,
            r.flags@[0].mappings is None,
            r.flags@[1].name == "unused",
            r.flags@[1].start == 8,
            r.flags@[1].length == 8,
            r.flags@[1].mappings is None,
    {
        RegisterEntry {
            name: "VCOUNT",
            address: 0x006,
            size: RegisterSize::HWord,
            flags: vec![
                Flag::new("Scanline", 0, 8),
                Flag::unused(8, 8),
            ],
        }
    }

    /// A background control register `name` at `address`: priority, base blocks, colours and size.
    pub fn bgcnt(name: &'static str, address: u32) -> (r: RegisterEntry)
        ensures
            r.name == name,
            r.address == address,
            r.size == RegisterSize::HWord,
            r.flags@.len() == 8,
            r.flags@[0].name == "BG Priority",
            r.flags@[0].start == 0,
            r.flags@[0].length == 2,
            r.flags@[0].mappings is None,
            r.flags@[1].name == "Character Base Block",
            r.flags@[1].start == 2,
            r.flags@[1].length == 2,
            r.flags@[1].mappings is None,
            r.flags@[2].name == "unused",
            r.flags@[2].start == 4,
            r.flags@[2].length == 2,
            r.flags@[2].mappings is None,
            r.flags@[3].name == "Mosaic",
            r.flags@[3].start == 6,
            r.flags@[3].length == 1,
            r.flags@[3].mappings is None,
            r.flags@[4].name == "Palette",
            r.flags@[4].start == 7,
            r.flags@[4].length == 1,
            r.flags@[4].mappings matches Some(m) && m@ == seq![(0u8, "16 colors"), (1u8, "256 colors")],
            r.flags@[5].name == "Screen Base Block",
            r.flags@[5].start == 8,
            r.flags@[5].length == 5,
            r.flags@[5].mappings is None,
            r.flags@[6].name == "Display Area Overflow",
            r.flags@[6].start == 13,
            r.flags@[6].length == 1,
            r.flags@[6].mappings is None,
            r.flags@[7].name == "Screen Size",
            r.flags@[7].start == 14,
            r.flags@[7].length == 2,
            r.flags@[7].mappings matches Some(m) && m@ == seq![(0u8, "256x256/128x128"), (1u8, "512x256/256x256"), (2u8, "256x512/512x512"), (3u8, "512x512/1024x1024")],
    {
        RegisterEntry {
            name,
            address,
            size: RegisterSize::HWord,
            flags: vec![
                Flag::new("BG Priority", 0, 2),
                Flag::new("Character Base Block", 2, 2),
                Flag::unused(4, 2),
                Flag::new("Mosaic", 6, 1),
                Flag::new("Palette", 7, 1).map(vec![(0u8, "16 colors"), (1u8, "256 colors")]),
                Flag::new("Screen Base Block", 8, 5),
                Flag::new("Display Area Overflow", 13, 1),
                Flag::new("Screen Size", 14, 2).map(vec![(0u8, "256x256/128x128"), (1u8, "512x256/256x256"), (2u8, "256x512/512x512"), (3u8, "512x512/1024x1024")]),
            ],
        }
    }

    /// A background scroll offset register `name` at `address`.
    pub fn offset(name: &'static str, address: u32) -> (r: RegisterEntry)
        ensures
            r.name == name,
            r.address == address,
            r.size == RegisterSize::HWord,
            r.flags@.len() == 2,
            r.flags@[0].name == "value",
            r.flags@[0].start == 0,
            r.flags@[0].length == 9,
            r.flags@[0].mappings is None,
            r.flags@[1].name == "unused",
            r.flags@[1].start == 9,
            r.flags@[1].length == 7,
            r.flags@[1].mappings is None,
    {
        RegisterEntry {
            name,
            address,
            size: RegisterSize::HWord,
            flags: vec![
                Flag::new("value", 0, 9),
                Flag::unused(9, 7),
            ],
        }
    }

    /// A 16-bit fixed-point register `name` at `address`: 8 fractional bits, 7 integer bits and a sign.
    pub fn float16(name: &'static str, address: u32) -> (r: RegisterEntry)
        ensures
            r.name == name,
            r.address == address,
            r.size == RegisterSize::HWord,
            r.flags@.len() == 3,
            r.flags@[0].name == "Fractional Portion",
            r.flags@[0].start == 0,
            r.flags@[0].length == 8,
            r.flags@[0].mappings is None,
            r.flags@[1].name == "Integer Portion",
            r.flags@[1].start == 8,
            r.flags@[1].length == 7,
            r.flags@[1].mappings is None,
            r.flags@[2].name == "Sign",
            r.flags@[2].start == 15,
            r.flags@[2].length == 1,
            r.flags@[2].mappings is None,
    {
        RegisterEntry {
            name,
            address,
            size: RegisterSize::HWord,
            flags: vec![
                Flag::new("Fractional Portion", 0, 8),
                Flag::new("Integer Portion", 8, 7),
                Flag::new("Sign", 15, 1),
            ],
        }
    }

    /// A 28-bit fixed-point register `name` at `address`: 8 fractional bits, 19 integer bits and a sign.
    pub fn float28(name: &'static str, address: u32) -> (r: RegisterEntry)
        ensures
            r.name == name,
            r.address == address,
            r.size == RegisterSize::Word,
            r.flags@.len() == 4,
            r.flags@[0].name == "Fractional Portion",
            r.flags@[0].start == 0,
            r.flags@[0].length == 8,
            r.flags@[0].mappings is None,
            r.flags@[1].name == "Integer Portion",
            r.flags@[1].start == 8,
            r.flags@[1].length == 19,
            r.flags@[1].mappings is None,
            r.flags@[2].name == "Sign",
            r.flags@[2].start == 27,
            r.flags@[2].length == 1,
            r.flags@[2].mappings is None,
            r.flags@[3].name == "unused",
            r.flags@[3].start == 28,
            r.flags@[3].length == 4,
            r.flags@[3].mappings is None,
    {
        RegisterEntry {
            name,
            address,
            size: RegisterSize::Word,
            flags: vec![
                Flag::new("Fractional Portion", 0, 8),
                Flag::new("Integer Portion", 8, 19),
                Flag::new("Sign", 27, 1),
                Flag::unused(28, 4),
            ],
        }
    }

    /// The PSG channel control register: master volumes and channel enables per side.
    pub fn soundcnt_l() -> (r: RegisterEntry)
        ensures
            r.name == "SOUNDCNT_L",
            r.address == 0x080,
            r.size == RegisterSize::HWord,
            r.flags@.len() == 6,
            r.flags@[0].name == "Sound 1-4 Master Volume RIGHT",
            r.flags@[0].start == 0,
            r.flags@[0].length == 3,
            r.flags@[0].mappings is None,
            r.flags@[1].name == "unused",
            r.flags@[1].start == 3,
            r.flags@[1].length == 1,
            r.flags@[1].mappings is None,
            r.flags@[2].name == "Sound 1-4 Master Volume LEFT",
            r.flags@[2].start == 4,
            r.flags@[2].length == 3,
            r.flags@[2].mappings is None,
            r.flags@[3].name == "unused",
            r.flags@[3].start == 7,
            r.flags@[3].length == 1,
            r.flags@[3].mappings is None,
            r.flags@[4].name == "Sound 1-4 Enable Flags LEFT",
            r.flags@[4].start == 8,
            r.flags@[4].length == 4,
            r.flags@[4].mappings is None,
            r.flags@[5].name == "Sound 1-4 Enable Flags RIGHT",
            r.flags@[5].start == 12,
            r.flags@[5].length == 4,
            r.flags@[5].mappings is None,
    {
        RegisterEntry {
            name: "SOUNDCNT_L",
            address: 0x080,
            size: RegisterSize::HWord,
            flags: vec![
                Flag::new("Sound 1-4 Master Volume RIGHT", 0, 3),
                Flag::unused(3, 1),
                Flag::new("Sound 1-4 Master Volume LEFT", 4, 3),
                Flag::unused(7, 1),
                Flag::new("Sound 1-4 Enable Flags LEFT", 8, 4),
                Flag::new("Sound 1-4 Enable Flags RIGHT", 12, 4),
            ],
        }
    }

    /// The DMA sound control register: volumes, sides, timers and FIFO resets of channels A and B.
    pub fn soundcnt_h() -> (r: RegisterEntry)
        ensures
            r.name == "SOUNDCNT_H",
            r.address == 0x082,
            r.size == RegisterSize::HWord,
            r.flags@.len() == 12,
            r.flags@[0].name == "Sound 1-4 Volume",
            r.flags@[0].start == 0,
            r.flags@[0].length == 2,
            r.flags@[0].mappings matches Some(m) && m@ == seq![(0u8, "25%"), (1u8, "50%"), (2u8, "100%"), (3u8, "Prohibited")],
            r.flags@[1].name == "Sound A Volume",
            r.flags@[1].start == 2,
            r.flags@[1].length == 1,
            r.flags@[1].mappings matches Some(m) && m@ == seq![(0u8, "50%"), (1u8, "100%")],
            r.flags@[2].name == "Sound B Volume",
            r.flags@[2].start == 3,
            r.flags@[2].length == 1,
            r.flags@[2].mappings matches Some(m) && m@ == seq![(0u8, "50%"), (1u8, "100%")],
            r.flags@[3].name == "unused",
            r.flags@[3].start == 4,
            r.flags@[3].length == 4,
            r.flags@[3].mappings is None,
            r.flags@[4].name == "Sound A Enable RIGHT",
            r.flags@[4].start == 8,
            r.flags@[4].length == 1,
            r.flags@[4].mappings is None,
            r.flags@[5].name == "Sound A Enable LEFT",
            r.flags@[5].start == 9,
            r.flags@[5].length == 1,
            r.flags@[5].mappings is None,
            r.flags@[6].name == "Sound A Timer Select",
            r.flags@[6].start == 10,
            r.flags@[6].length == 1,
            r.flags@[6].mappings is None,
            r.flags@[7].name == "Sound A Reset FIFO",
            r.flags@[7].start == 11,
            r.flags@[7].length == 1,
            r.flags@[7].mappings is None,
            r.flags@[8].name == "Sound B Enable RIGHT",
            r.flags@[8].start == 12,
            r.flags@[8].length == 1,
            r.flags@[8].mappings is None,
            r.flags@[9].name == "Sound B Enable LEFT",
            r.flags@[9].start == 13,
            r.flags@[9].length == 1,
            r.flags@[9].mappings is None,
            r.flags@[10].name == "Sound B Timer Select",
            r.flags@[10].start == 14,
            r.flags@[10].length == 1,
            r.flags@[10].mappings is None,
            r.flags@[11].name == "Sound B Reset FIFO",
            r.flags@[11].start == 15,
            r.flags@[11].length == 1,
            r.flags@[11].mappings is None,
    {
        RegisterEntry {
            name: "SOUNDCNT_H",
            address: 0x082,
            size: RegisterSize::HWord,
            flags: vec![
                Flag::new("Sound 1-4 Volume", 0, 2).map(vec![(0u8, "25%"), (1u8, "50%"), (2u8, "100%"), (3u8, "Prohibited")]),
                Flag::new("Sound A Volume", 2, 1).map(vec![(0u8, "50%"), (1u8, "100%")]),
                Flag::new("Sound B Volume", 3, 1).map(vec![(0u8, "50%"), (1u8, "100%")]),
                Flag::unused(4, 4),
                Flag::new("Sound A Enable RIGHT", 8, 1),
                Flag::new("Sound A Enable LEFT", 9, 1),
                Flag::new("Sound A Timer Select", 10, 1),
                Flag::new("Sound A Reset FIFO", 11, 1),
                Flag::new("Sound B Enable RIGHT", 12, 1),
                Flag::new("Sound B Enable LEFT", 13, 1),
                Flag::new("Sound B Timer Select", 14, 1),
                Flag::new("Sound B Reset FIFO", 15, 1),
            ],
        }
    }

    /// The sound bias register: bias level and amplitude resolution.
    pub fn sg_bias() -> (r: RegisterEntry)
        ensures
            r.name == "SG_BIAS",
            r.address == 0x88,
            r.size == RegisterSize::HWord,
            r.flags@.len() == 3,
            r.flags@[0].name == "Bias Level",
            r.flags@[0].start == 0,
            r.flags@[0].length == 10,
            r.flags@[0].mappings is None,
            r.flags@[1].name == "unused",
            r.flags@[1].start == 10,
            r.flags@[1].length == 4,
            r.flags@[1].mappings is None,
            r.flags@[2].name == "Amplitude Resolution Cycle",
            r.flags@[2].start == 14,
            r.flags@[2].length == 2,
            r.flags@[2].mappings matches Some(m) && m@ == seq![(0u8, "9bit / 32.768kHz"), (1u8, "8bit / 65.536kHz"), (2u8, "7bit / 131.072kHz"), (3u8, "6bit / 262.144kHz")],
    {
        RegisterEntry {
            name: "SG_BIAS",
            address: 0x88,
            size: RegisterSize::HWord,
            flags: vec![
                Flag::new("Bias Level", 0, 10),
                Flag::unused(10, 4),
                Flag::new("Amplitude Resolution Cycle", 14, 2).map(vec![(0u8, "9bit / 32.768kHz"), (1u8, "8bit / 65.536kHz"), (2u8, "7bit / 131.072kHz"), (3u8, "6bit / 262.144kHz")]),
            ],
        }
    }

    /// A DMA source or destination address register `name` at `address`.
    pub fn dma_ad(name: &'static str, address: u32) -> (r: RegisterEntry)
        ensures
            r.name == name,
            r.address == address,
            r.size == RegisterSize::Word,
            r.flags@.len() == 2,
            r.flags@[0].name == "value",
            r.flags@[0].start == 0,
            r.flags@[0].length == 28,
            r.flags@[0].mappings is None,
            r.flags@[1].name == "unused",
            r.flags@[1].start == 28,
            r.flags@[1].length == 4,
            r.flags@[1].mappings is None,
    {
        RegisterEntry {
            name,
            address,
            size: RegisterSize::Word,
            flags: vec![
                Flag::new("value", 0, 28),
                Flag::unused(28, 4),
            ],
        }
    }

    /// A DMA word count register `name` at `address`, whose count has `B` bits.
    pub fn dma_cnt_l<const B: u8>(name: &'static str, address: u32) -> (r: RegisterEntry)
        requires
            B <= 16,
        ensures
            r.name == name,
            r.address == address,
            r.size == RegisterSize::HWord,
            B == 16 ==> r.flags@.len() == 1,
            B != 16 ==> r.flags@.len() == 2,
            B == 16 ==> (r.flags@[0].name == "value" && r.flags@[0].start == 0 && r.flags@[0].length == B && r.flags@[0].mappings is None),
            B != 16 ==> (r.flags@[0].name == "value" && r.flags@[0].start == 0 && r.flags@[0].length == B && r.flags@[0].mappings is None && r.flags@[1].name == "unused" && r.flags@[1].start == B && r.flags@[1].length == 16 - B && r.flags@[1].mappings is None),
    {
        let flags = if B == 16 {
            vec![Flag::new("value", 0, B)]
        } else {
            let rest = 16 - B;
            vec![Flag::new("value", 0, B), Flag::unused(B, rest)]
        };
        RegisterEntry { name, address, size: RegisterSize::HWord, flags }
    }

    /// A DMA control register `name` at `address`: address control, repeat, width, timing, interrupt and enable.
    pub fn dma_cnt_h(name: &'static str, address: u32) -> (r: RegisterEntry)
        ensures
            r.name == name,
            r.address == address,
            r.size == RegisterSize::HWord,
            r.flags@.len() == 9,
            r.flags@[0].name == "unused",
            r.flags@[0].start == 0,
            r.flags@[0].length == 5,
            r.flags@[0].mappings is None,
            r.flags@[1].name == "Dest Address Control",
            r.flags@[1].start == 5,
            r.flags@[1].length == 2,
            r.flags@[1].mappings matches Some(m) && m@ == seq![(0u8, "Increment"), (1u8, "Decrement"), (2u8, "Fixed"), (3u8, "Increment Reload")],
            r.flags@[2].name == "Source Address Control",
            r.flags@[2].start == 7,
            r.flags@[2].length == 2,
            r.flags@[2].mappings matches Some(m) && m@ == seq![(0u8, "Increment"), (1u8, "Decrement"), (2u8, "Fixed"), (3u8, "Prohibited")],
            r.flags@[3].name == "DMA Repeat",
            r.flags@[3].start == 9,
            r.flags@[3].length == 1,
            r.flags@[3].mappings is None,
            r.flags@[4].name == "DMA Transfer Type",
            r.flags@[4].start == 10,
            r.flags@[4].length == 1,
            r.flags@[4].mappings matches Some(m) && m@ == seq![(0u8, "16-bit"), (1u8, "32-bit")],
            r.flags@[5].name == "Game Pak DRQ",
            r.flags@[5].start == 11,
            r.flags@[5].length == 1,
            r.flags@[5].mappings is None,
            r.flags@[6].name == "DMA Start Timing",
            r.flags@[6].start == 12,
            r.flags@[6].length == 2,
            r.flags@[6].mappings matches Some(m) && m@ == seq![(0u8, "Immediate"), (1u8, "V-Blank"), (2u8, "H-Blank"), (3u8, "Special")],
            r.flags@[7].name == "IRQ Enable",
            r.flags@[7].start == 14,
            r.flags@[7].length == 1,
            r.flags@[7].mappings is None,
            r.flags@[8].name == "DMA Enable",
            r.flags@[8].start == 15,
            r.flags@[8].length == 1,
            r.flags@[8].mappings is None,
    {
        RegisterEntry {
            name,
            address,
            size: RegisterSize::HWord,
            flags: vec![
                Flag::unused(0, 5),
                Flag::new("Dest Address Control", 5, 2).map(vec![(0u8, "Increment"), (1u8, "Decrement"), (2u8, "Fixed"), (3u8, "Increment Reload")]),
                Flag::new("Source Address Control", 7, 2).map(vec![(0u8, "Increment"), (1u8, "Decrement"), (2u8, "Fixed"), (3u8, "Prohibited")]),
                Flag::new("DMA Repeat", 9, 1),
                Flag::new("DMA Transfer Type", 10, 1).map(vec![(0u8, "16-bit"), (1u8, "32-bit")]),
                Flag::new("Game Pak DRQ", 11, 1),
                Flag::new("DMA Start Timing", 12, 2).map(vec![(0u8, "Immediate"), (1u8, "V-Blank"), (2u8, "H-Blank"), (3u8, "Special")]),
                Flag::new("IRQ Enable", 14, 1),
                Flag::new("DMA Enable", 15, 1),
            ],
        }
    }

    /// A timer counter/reload register `name` at `address`.
    pub fn tmcnt_l(name: &'static str, address: u32) -> (r: RegisterEntry)
        ensures
            r.name == name,
            r.address == address,
            r.size == RegisterSize::HWord,
            r.flags@.len() == 1,
            r.flags@[0].name == "value",
            r.flags@[0].start == 0,
            r.flags@[0].length == 16,
            r.flags@[0].mappings is None,
    {
        RegisterEntry {
            name,
            address,
            size: RegisterSize::HWord,
            flags: vec![
                Flag::new("value", 0, 16),
            ],
        }
    }

    /// A timer control register `name` at `address`: prescaler, count-up, interrupt and start.
    pub fn tmcnt_h(name: &'static str, address: u32) -> (r: RegisterEntry)
        ensures
            r.name == name,
            r.address == address,
            r.size == RegisterSize::HWord,
            r.flags@.len() == 6,
            r.flags@[0].name == "Prescalar Selection",
            r.flags@[0].start == 0,
            r.flags@[0].length == 2,
            r.flags@[0].mappings matches Some(m) && m@ == seq![(0u8, "F/1"), (1u8, "F/64"), (2u8, "F/256"), (3u8, "F/1024")],
            r.flags@[1].name == "Count-up Timing",
            r.flags@[1].start == 2,
            r.flags@[1].length == 1,
            r.flags@[1].mappings is None,
            r.flags@[2].name == "unused",
            r.flags@[2].start == 3,
            r.flags@[2].length == 3,
            r.flags@[2].mappings is None,
            r.flags@[3].name == "Timer IRQ enable",
            r.flags@[3].start == 6,
            r.flags@[3].length == 1,
            r.flags@[3].mappings is None,
            r.flags@[4].name == "Timer Start/Stop",
            r.flags@[4].start == 7,
            r.flags@[4].length == 1,
            r.flags@[4].mappings is None,
            r.flags@[5].name == "unused",
            r.flags@[5].start == 8,
            r.flags@[5].length == 8,
            r.flags@[5].mappings is None,
    {
        RegisterEntry {
            name,
            address,
            size: RegisterSize::HWord,
            flags: vec![
                Flag::new("Prescalar Selection", 0, 2).map(vec![(0u8, "F/1"), (1u8, "F/64"), (2u8, "F/256"), (3u8, "F/1024")]),
                Flag::new("Count-up Timing", 2, 1),
                Flag::unused(3, 3),
                Flag::new("Timer IRQ enable", 6, 1),
                Flag::new("Timer Start/Stop", 7, 1),
                Flag::unused(8, 8),
            ],
        }
    }

    /// The key status register: one bit per key, 0 when pressed.
    pub fn keyinput() -> (r: RegisterEntry)
        ensures
            r.name == "KEYINPUT",
            r.address == 0x130,
            r.size == RegisterSize::HWord,
            r.flags@.len() == 11,
            r.flags@[0].name == "Button A",
            r.flags@[0].start == 0,
            r.flags@[0].length == 1,
            r.flags@[0].mappings is None,
            r.flags@[1].name == "Button B",
            r.flags@[1].start == 1,
            r.flags@[1].length == 1,
            r.flags@[1].mappings is None,
            r.flags@[2].name == "Select",
            r.flags@[2].start == 2,
            r.flags@[2].length == 1,
            r.flags@[2].mappings is None,
            r.flags@[3].name == "Start",
            r.flags@[3].start == 3,
            r.flags@[3].length == 1,
            r.flags@[3].mappings is None,
            r.flags@[4].name == "Right",
            r.flags@[4].start == 4,
            r.flags@[4].length == 1,
            r.flags@[4].mappings is None,
            r.flags@[5].name == "Left",
            r.flags@[5].start == 5,
            r.flags@[5].length == 1,
            r.flags@[5].mappings is None,
            r.flags@[6].name == "Up",
            r.flags@[6].start == 6,
            r.flags@[6].length == 1,
            r.flags@[6].mappings is None,
            r.flags@[7].name == "Down",
            r.flags@[7].start == 7,
            r.flags@[7].length == 1,
            r.flags@[7].mappings is None,
            r.flags@[8].name == "Button R",
            r.flags@[8].start == 8,
            r.flags@[8].length == 1,
            r.flags@[8].mappings is None,
            r.flags@[9].name == "Button L",
            r.flags@[9].start == 9,
            r.flags@[9].length == 1,
            r.flags@[9].mappings is None,
            r.flags@[10].name == "unused",
            r.flags@[10].start == 10,
            r.flags@[10].length == 6,
            r.flags@[10].mappings is None,
    {
        RegisterEntry {
            name: "KEYINPUT",
            address: 0x130,
            size: RegisterSize::HWord,
            flags: vec![
                Flag::new("Button A", 0, 1),
                Flag::new("Button B", 1, 1),
                Flag::new("Select", 2, 1),
                Flag::new("Start", 3, 1),
                Flag::new("Right", 4, 1),
                Flag::new("Left", 5, 1),
                Flag::new("Up", 6, 1),
                Flag::new("Down", 7, 1),
                Flag::new("Button R", 8, 1),
                Flag::new("Button L", 9, 1),
                Flag::unused(10, 6),
            ],
        }
    }

    /// The key interrupt control register: the keys to watch, the interrupt enable and the condition.
    pub fn keycnt() -> (r: RegisterEntry)
        ensures
            r.name == "KEYCNT",
            r.address == 0x132,
            r.size == RegisterSize::HWord,
            r.flags@.len() == 13,
            r.flags@[0].name == "Button A",
            r.flags@[0].start == 0,
            r.flags@[0].length == 1,
            r.flags@[0].mappings is None,
            r.flags@[1].name == "Button B",
            r.flags@[1].start == 1,
            r.flags@[1].length == 1,
            r.flags@[1].mappings is None,
            r.flags@[2].name == "Select",
            r.flags@[2].start == 2,
            r.flags@[2].length == 1,
            r.flags@[2].mappings is None,
            r.flags@[3].name == "Start",
            r.flags@[3].start == 3,
            r.flags@[3].length == 1,
            r.flags@[3].mappings is None,
            r.flags@[4].name == "Right",
            r.flags@[4].start == 4,
            r.flags@[4].length == 1,
            r.flags@[4].mappings is None,
            r.flags@[5].name == "Left",
            r.flags@[5].start == 5,
            r.flags@[5].length == 1,
            r.flags@[5].mappings is None,
            r.flags@[6].name == "Up",
            r.flags@[6].start == 6,
            r.flags@[6].length == 1,
            r.flags@[6].mappings is None,
            r.flags@[7].name == "Down",
            r.flags@[7].start == 7,
            r.flags@[7].length == 1,
            r.flags@[7].mappings is None,
            r.flags@[8].name == "Button R",
            r.flags@[8].start == 8,
            r.flags@[8].length == 1,
            r.flags@[8].mappings is None,
            r.flags@[9].name == "Button L",
            r.flags@[9].start == 9,
            r.flags@[9].length == 1,
            r.flags@[9].mappings is None,
            r.flags@[10].name == "unused",
            r.flags@[10].start == 10,
            r.flags@[10].length == 4,
            r.flags@[10].mappings is None,
            r.flags@[11].name == "IRQ Enable",
            r.flags@[11].start == 14,
            r.flags@[11].length == 1,
            r.flags@[11].mappings is None,
            r.flags@[12].name == "IRQ Condition",
            r.flags@[12].start == 15,
            r.flags@[12].length == 1,
            r.flags@[12].mappings is None,
    {
        RegisterEntry {
            name: "KEYCNT",
            address: 0x132,
            size: RegisterSize::HWord,
            flags: vec![
                Flag::new("Button A", 0, 1),
                Flag::new("Button B", 1, 1),
                Flag::new("Select", 2, 1),
                Flag::new("Start", 3, 1),
                Flag::new("Right", 4, 1),
                Flag::new("Left", 5, 1),
                Flag::new("Up", 6, 1),
                Flag::new("Down", 7, 1),
                Flag::new("Button R", 8, 1),
                Flag::new("Button L", 9, 1),
                Flag::unused(10, 4),
                Flag::new("IRQ Enable", 14, 1),
                Flag::new("IRQ Condition", 15, 1),
            ],
        }
    }

    /// An interrupt register `name` at `address` (enable or request flags): one bit per source.
    pub fn interrupt(name: &'static str, address: u32) -> (r: RegisterEntry)
        ensures
            r.name == name,
            r.address == address,
            r.size == RegisterSize::HWord,
            r.flags@.len() == 15,
            r.flags@[0].name == "V-Blank",
            r.flags@[0].start == 0,
            r.flags@[0].length == 1,
            r.flags@[0].mappings is None,
            r.flags@[1].name == "H-Blank",
            r.flags@[1].start == 1,
            r.flags@[1].length == 1,
            r.flags@[1].mappings is None,
            r.flags@[2].name == "V-Count",
            r.flags@[2].start == 2,
            r.flags@[2].length == 1,
            r.flags@[2].mappings is None,
            r.flags@[3].name == "Timer 0",
            r.flags@[3].start == 3,
            r.flags@[3].length == 1,
            r.flags@[3].mappings is None,
            r.flags@[4].name == "Timer 1",
            r.flags@[4].start == 4,
            r.flags@[4].length == 1,
            r.flags@[4].mappings is None,
            r.flags@[5].name == "Timer 2",
            r.flags@[5].start == 5,
            r.flags@[5].length == 1,
            r.flags@[5].mappings is None,
            r.flags@[6].name == "Timer 3",
            r.flags@[6].start == 6,
            r.flags@[6].length == 1,
            r.flags@[6].mappings is None,
            r.flags@[7].name == "Serial",
            r.flags@[7].start == 7,
            r.flags@[7].length == 1,
            r.flags@[7].mappings is None,
            r.flags@[8].name == "DMA 0",
            r.flags@[8].start == 8,
            r.flags@[8].length == 1,
            r.flags@[8].mappings is None,
            r.flags@[9].name == "DMA 1",
            r.flags@[9].start == 9,
            r.flags@[9].length == 1,
            r.flags@[9].mappings is None,
            r.flags@[10].name == "DMA 2",
            r.flags@[10].start == 10,
            r.flags@[10].length == 1,
            r.flags@[10].mappings is None,
            r.flags@[11].name == "DMA 3",
            r.flags@[11].start == 11,
            r.flags@[11].length == 1,
            r.flags@[11].mappings is None,
            r.flags@[12].name == "Keypad",
            r.flags@[12].start == 12,
            r.flags@[12].length == 1,
            r.flags@[12].mappings is None,
            r.flags@[13].name == "Game Pak",
            r.flags@[13].start == 13,
            r.flags@[13].length == 1,
            r.flags@[13].mappings is None,
            r.flags@[14].name == "unused",
            r.flags@[14].start == 14,
            r.flags@[14].length == 2,
            r.flags@[14].mappings is None,
    {
        RegisterEntry {
            name,
            address,
            size: RegisterSize::HWord,
            flags: vec![
                Flag::new("V-Blank", 0, 1),
                Flag::new("H-Blank", 1, 1),
                Flag::new("V-Count", 2, 1),
                Flag::new("Timer 0", 3, 1),
                Flag::new("Timer 1", 4, 1),
                Flag::new("Timer 2", 5, 1),
                Flag::new("Timer 3", 6, 1),
                Flag::new("Serial", 7, 1),
                Flag::new("DMA 0", 8, 1),
                Flag::new("DMA 1", 9, 1),
                Flag::new("DMA 2", 10, 1),
                Flag::new("DMA 3", 11, 1),
                Flag::new("Keypad", 12, 1),
                Flag::new("Game Pak", 13, 1),
                Flag::unused(14, 2),
            ],
        }
    }

    /// The interrupt master enable register.
    pub fn ime() -> (r: RegisterEntry)
        ensures
            r.name == "IME",
            r.address == 0x208,
            r.size == RegisterSize::HWord,
            r.flags@.len() == 2,
            r.flags@[0].name == "Disable interrupts",
            r.flags@[0].start == 0,
            r.flags@[0].length == 1,
            r.flags@[0].mappings is None,
            r.flags@[1].name == "unused",
            r.flags@[1].start == 1,
            r.flags@[1].length == 15,
            r.flags@[1].mappings is None,
    {
        RegisterEntry {
            name: "IME",
            address: 0x208,
            size: RegisterSize::HWord,
            flags: vec![
                Flag::new("Disable interrupts", 0, 1),
                Flag::unused(1, 15),
            ],
        }
    }

    /// The post-boot flag byte.
    pub fn haltcnt_l() -> (r: RegisterEntry)
        ensures
            r.name == "HALTCNT_L",
            r.address == 0x300,
            r.size == RegisterSize::Byte,
            r.flags@.len() == 2,
            r.flags@[0].name == "First Boot Flag",
            r.flags@[0].start == 0,
            r.flags@[0].length == 1,
            r.flags@[0].mappings is None,
            r.flags@[1].name == "unused",
            r.flags@[1].start == 1,
            r.flags@[1].length == 7,
            r.flags@[1].mappings is None,
    {
        RegisterEntry {
            name: "HALTCNT_L",
            address: 0x300,
            size: RegisterSize::Byte,
            flags: vec![
                Flag::new("First Boot Flag", 0, 1),
                Flag::unused(1, 7),
            ],
        }
    }

    /// The power-down control byte.
    pub fn haltcnt_h() -> (r: RegisterEntry)
        ensures
            r.name == "HALTCNT_H",
            r.address == 0x301,
            r.size == RegisterSize::Byte,
            r.flags@.len() == 2,
            r.flags@[0].name == "unused",
            r.flags@[0].start == 1,
            r.flags@[0].length == 7,
            r.flags@[0].mappings is None,
            r.flags@[1].name == "Power Down Mode",
            r.flags@[1].start == 7,
            r.flags@[1].length == 1,
            r.flags@[1].mappings is None,
    {
        RegisterEntry {
            name: "HALTCNT_H",
            address: 0x301,
            size: RegisterSize::Byte,
            flags: vec![
                Flag::unused(1, 7),
                Flag::new("Power Down Mode", 7, 1),
            ],
        }
    }
}

/// The I/O registers with their names, addresses, widths and fields, in
/// address order.
pub fn io_map() -> (r: Vec<RegisterEntry>)
    ensures
        r@.len() == 61,
        r@[3].name == "BGCNT0" && r@[3].address == 0x008,
        r@[4].name == "BGCNT1" && r@[4].address == 0x00A,
        r@[5].name == "BGCNT2" && r@[5].address == 0x00C,
        r@[6].name == "BGCNT3" && r@[6].address == 0x00E,
        r@[7].name == "BG0HOFS" && r@[7].address == 0x010,
        r@[8].name == "BG0VOFS" && r@[8].address == 0x012,
        r@[9].name == "BG1HOFS" && r@[9].address == 0x014,
        r@[10].name == "BG1VOFS" && r@[10].address == 0x016,
        r@[11].name == "BG2HOFS" && r@[11].address == 0x018,
        r@[12].name == "BG2VOFS" && r@[12].address == 0x01A,
        r@[13].name == "BG3HOFS" && r@[13].address == 0x01C,
        r@[14].name == "BG3VOFS" && r@[14].address == 0x01E,
        r@[15].name == "BG2PA" && r@[15].address == 0x020,
        r@[16].name == "BG2PB" && r@[16].address == 0x022,
        r@[17].name == "BG2PC" && r@[17].address == 0x024,
        r@[18].name == "BG2PD" && r@[18].address == 0x026,
        r@[19].name == "BG2X" && r@[19].address == 0x028,
        r@[20].name == "BG2Y" && r@[20].address == 0x02C,
        r@[21].name == "BG3PA" && r@[21].address == 0x030,
        r@[22].name == "BG3PB" && r@[22].address == 0x032,
        r@[23].name == "BG3PC" && r@[23].address == 0x034,
        r@[24].name == "BG3PD" && r@[24].address == 0x036,
        r@[25].name == "BG3X" && r@[25].address == 0x038,
        r@[26].name == "BG3Y" && r@[26].address == 0x03C,
        r@[30].name == "DMA0SAD" && r@[30].address == 0x0B0,
        r@[31].name == "DMA0DAD" && r@[31].address == 0x0B4,
        r@[32].name == "DMA0CNT_L" && r@[32].address == 0x0B8,
        r@[33].name == "DMA0CNT_H" && r@[33].address == 0x0BA,
        r@[34].name == "DMA1SAD" && r@[34].address == 0x0BC,
        r@[35].name == "DMA1DAD" && r@[35].address == 0x0C0,
        r@[36].name == "DMA1CNT_L" && r@[36].address == 0x0C4,
        r@[37].name == "DMA1CNT_H" && r@[37].address == 0x0C6,
        r@[38].name == "DMA2SAD" && r@[38].address == 0x0C8,
        r@[39].name == "DMA2DAD" && r@[39].address == 0x0CC,
        r@[40].name == "DMA2CNT_L" && r@[40].address == 0x0D0,
        r@[41].name == "DMA2CNT_H" && r@[41].address == 0x0D2,
        r@[42].name == "DMA3SAD" && r@[42].address == 0x0D4,
        r@[43].name == "DMA3DAD" && r@[43].address == 0x0D8,
        r@[44].name == "DMA3CNT_L" && r@[44].address == 0x0DC,
        r@[45].name == "DMA3CNT_H" && r@[45].address == 0x0DE,
        r@[46].name == "TM0CNT_L" && r@[46].address == 0x100,
        r@[47].name == "TM0CNT_H" && r@[47].address == 0x102,
        r@[48].name == "TM1CNT_L" && r@[48].address == 0x104,
        r@[49].name == "TM1CNT_H" && r@[49].address == 0x106,
        r@[50].name == "TM2CNT_L" && r@[50].address == 0x108,
        r@[51].name == "TM2CNT_H" && r@[51].address == 0x10A,
        r@[52].name == "TM3CNT_L" && r@[52].address == 0x10C,
        r@[53].name == "TM3CNT_H" && r@[53].address == 0x10E,
        r@[56].name == "IE" && r@[56].address == 0x200,
        r@[57].name == "IF" && r@[57].address == 0x202,
{
    vec![
        RegisterEntry::dispcnt(),
        RegisterEntry::dispstat(),
        RegisterEntry::vcount(),
        RegisterEntry::bgcnt("BGCNT0", 0x008),
        RegisterEntry::bgcnt("BGCNT1", 0x00A),
        RegisterEntry::bgcnt("BGCNT2", 0x00C),
        RegisterEntry::bgcnt("BGCNT3", 0x00E),
        RegisterEntry::offset("BG0HOFS", 0x010),
        RegisterEntry::offset("BG0VOFS", 0x012),
        RegisterEntry::offset("BG1HOFS", 0x014),
        RegisterEntry::offset("BG1VOFS", 0x016),
        RegisterEntry::offset("BG2HOFS", 0x018),
        RegisterEntry::offset("BG2VOFS", 0x01A),
        RegisterEntry::offset("BG3HOFS", 0x01C),
        RegisterEntry::offset("BG3VOFS", 0x01E),
        RegisterEntry::float16("BG2PA", 0x020),
        RegisterEntry::float16("BG2PB", 0x022),
        RegisterEntry::float16("BG2PC", 0x024),
        RegisterEntry::float16("BG2PD", 0x026),
        RegisterEntry::float28("BG2X", 0x028),
        RegisterEntry::float28("BG2Y", 0x02C),
        RegisterEntry::float16("BG3PA", 0x030),
        RegisterEntry::float16("BG3PB", 0x032),
        RegisterEntry::float16("BG3PC", 0x034),
        RegisterEntry::float16("BG3PD", 0x036),
        RegisterEntry::float28("BG3X", 0x038),
        RegisterEntry::float28("BG3Y", 0x03C),
        RegisterEntry::soundcnt_l(),
        RegisterEntry::soundcnt_h(),
        RegisterEntry::sg_bias(),
        RegisterEntry::dma_ad("DMA0SAD", 0x0B0),
        RegisterEntry::dma_ad("DMA0DAD", 0x0B4),
        RegisterEntry::dma_cnt_l::<14>("DMA0CNT_L", 0x0B8),
        RegisterEntry::dma_cnt_h("DMA0CNT_H", 0x0BA),
        RegisterEntry::dma_ad("DMA1SAD", 0x0BC),
        RegisterEntry::dma_ad("DMA1DAD", 0x0C0),
        RegisterEntry::dma_cnt_l::<14>("DMA1CNT_L", 0x0C4),
        RegisterEntry::dma_cnt_h("DMA1CNT_H", 0x0C6),
        RegisterEntry::dma_ad("DMA2SAD", 0x0C8),
        RegisterEntry::dma_ad("DMA2DAD", 0x0CC),
        RegisterEntry::dma_cnt_l::<14>("DMA2CNT_L", 0x0D0),
        RegisterEntry::dma_cnt_h("DMA2CNT_H", 0x0D2),
        RegisterEntry::dma_ad("DMA3SAD", 0x0D4),
        RegisterEntry::dma_ad("DMA3DAD", 0x0D8),
        RegisterEntry::dma_cnt_l::<16>("DMA3CNT_L", 0x0DC),
        RegisterEntry::dma_cnt_h("DMA3CNT_H", 0x0DE),
        RegisterEntry::tmcnt_l("TM0CNT_L", 0x100),
        RegisterEntry::tmcnt_h("TM0CNT_H", 0x102),
        RegisterEntry::tmcnt_l("TM1CNT_L", 0x104),
        RegisterEntry::tmcnt_h("TM1CNT_H", 0x106),
        RegisterEntry::tmcnt_l("TM2CNT_L", 0x108),
        RegisterEntry::tmcnt_h("TM2CNT_H", 0x10A),
        RegisterEntry::tmcnt_l("TM3CNT_L", 0x10C),
        RegisterEntry::tmcnt_h("TM3CNT_H", 0x10E),
        RegisterEntry::keyinput(),
        RegisterEntry::keycnt(),
        RegisterEntry::interrupt("IE", 0x200),
        RegisterEntry::interrupt("IF", 0x202),
        RegisterEntry::ime(),
        RegisterEntry::haltcnt_l(),
        RegisterEntry::haltcnt_h(),
    ]
}

} // verus!
