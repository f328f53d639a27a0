use boya_core::arm7tdmi::Arm7tdmi;
use boya_core::arm7tdmi::arm::ArmInstr;
use boya_core::arm7tdmi::isa::Instruction;
use boya_core::bus::GbaBus;
use boya_core::bus::registers::interrupt::InterruptFlag;
use boya_core::bus::registers::keypad::Key;

/// Address the cartridge ROM is mapped at.
const ROM_START: u32 = 0x0800_0000;

/// A processor on the GBA bus with `program` as its cartridge ROM, reset
/// and then started at the beginning of the ROM.
fn gba(program: &[u32]) -> Arm7tdmi<GbaBus> {
    let mut bus = GbaBus::new();
    for w in program {
        bus.rom.extend_from_slice(&w.to_le_bytes());
    }
    let mut cpu = Arm7tdmi::new(bus);
    cpu.reset();
    cpu.set_pc(ROM_START);
    cpu.pipeline.flush();
    cpu.load_pipeline();
    cpu
}

/// Runs `steps` instructions, clocking the bus after each one and running
/// the DMA transfers that start.
fn run(cpu: &mut Arm7tdmi<GbaBus>, steps: usize) {
    for _ in 0..steps {
        let cycles = cpu.step();
        cpu.bus.tick(cycles as u32);
        cpu.bus.try_dma();
    }
}

#[test]
fn test_irq_registers() {
    let mut cpu = gba(&[
        0xE3A00404, // MOV R0, #0x0400_0000
        0xE3A01C02, // MOV R1, #0x200
        0xE2811008, // ADD R1, #0x8
        0xE3A02001, // MOV R2, #0x1
        0xE18020B1, // STRH R2, [R0, R1] ; set IME
        0xE2411008, // SUB R1, #0x8
        0xE3A02000, // MOV R2, #0x0
        0xE3822002, // ORR R2, #(1 shl 1) ; set HBlank
        0xE3822C01, // ORR R2, #(1 shl 8) ; set DMA 0
        0xE18020B1, // STRH R2, [R0, R1] ; set IE
    ]);
    run(&mut cpu, 10);
    assert!(cpu.bus.io.irq_master_enable(), "IME");
    assert!(cpu.bus.io.is_irq_enabled(InterruptFlag::Hblank), "HBlank IE");
    assert!(cpu.bus.io.is_irq_enabled(InterruptFlag::Dma0), "DMA0 IE");
}

#[test]
fn test_keypad() {
    let mut cpu = gba(&[
        0xE3A00404, // MOV R0, #0x0400_0000
        0xE3A01E13, // MOV R1, #0x130
        0xE2811002, // ADD R1, #0x2
        0xE3A02000, // MOV R2, #0x0
        0xE3822002, // ORR R2, #(1 shl 1) ; set irq trigger B
        0xE3822080, // ORR R2, #(1 shl 7) ; set irq trigger Down
        0xE3822901, // ORR R2, #(1 shl 14) ; set irq enable
        0xE3822902, // ORR R2, #(1 shl 15) ; set irq condition to AND
        0xE18020B1, // STRH R2, [R0, R1]
        0xE1A00000, // NOP
    ]);
    cpu.bus.io.enable_master_irq();
    cpu.bus.io.enable_irq(InterruptFlag::Keypad);
    cpu.bus.io.keypad.keyinput &= !(1u16 << Key::Down.bit());
    cpu.bus.io.keypad.keyinput &= !(1u16 << Key::ButtonB.bit());
    run(&mut cpu, 10);
    assert!(cpu.bus.io.has_irq(InterruptFlag::Keypad), "keypad pending irq");
}

/// Cycles of the next instruction of a program that runs from the 16-bit
/// cartridge ROM in its default wait states, where a sequential word fetch
/// takes 6 cycles and a non-sequential one 8: a branch takes 2S + 1N (20),
/// a half-word store to an I/O register 1N from ROM and 1N on the
/// registers (9), and a data processing instruction 1S (6).
fn rom_timed_cycles(cpu: &Arm7tdmi<GbaBus>) -> u32 {
    match cpu.pipeline.curr_instr {
        Some(Instruction::Arm(ArmInstr::Format09(_))) => 20,
        Some(Instruction::Arm(ArmInstr::Format07(_))) => 9,
        _ => 6,
    }
}

/// Runs `steps` instructions, clocking the bus by the ROM timing of each.
fn run_rom_timed(cpu: &mut Arm7tdmi<GbaBus>, steps: usize) {
    for _ in 0..steps {
        let cycles = rom_timed_cycles(cpu);
        cpu.step();
        cpu.bus.tick(cycles);
        cpu.bus.try_dma();
    }
}

#[test]
fn test_timer() {
    let mut cpu = gba(&[
        0xE3A00404, // MOV R0, #0x0400_0000
        0xE3A01C01, // MOV R1, #0x100
        0xE2811006, // ADD R1, #0x6
        0xE3A02000, // MOV R2, #0x0
        0xE3822004, // ORR R2, #(1 shl 2) ; set countup timing
        0xE3822080, // ORR R2, #(1 shl 7) ; set start
        0xE18020B1, // STRH R2, [R0, R1] ; 2 N (9)
        0xE2411006, // SUB R1, #0x6
        0xE3A02801, // MOV R2, #0x10000
        0xE2422C01, // SUB R2, #0x100
        0xE18020B1, // STRH R2, [R0, R1]
        0xE2811002, // ADD R1, #0x2
        0xE3A02000, // MOV R2, #0x0
        0xE3822040, // ORR R2, #(1 shl 6) ; set enable irq
        0xE3822080, // ORR R2, #(1 shl 7) ; set start
        0xE18020B1, // STRH R2, [R0, R1] ; 2 N (9)
        0xE1A00000, // NOP ; 1 S (6)
        0xEAFFFFFE, // loop: B loop ; 2S + 1N (20)
    ]);
    cpu.bus.io.enable_master_irq();
    cpu.bus.io.enable_irq(InterruptFlag::Timer0);
    run_rom_timed(&mut cpu, 17 + 13);
    let timer0 = &cpu.bus.io.timer0;
    let timer1 = &cpu.bus.io.timer1;
    assert_eq!(0xFF00 + 19, timer0.counter, "timer 0 counter"); // + wrapped 20 cycles
    assert_eq!(0x1, timer1.counter, "timer 1 counter"); // + count-up cycle
    assert!(cpu.bus.io.has_irq(InterruptFlag::Timer0), "timer 0 pending irq");
}
