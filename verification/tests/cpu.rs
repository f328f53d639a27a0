use boya_core::arm7tdmi::Arm7tdmi;
use boya_core::arm7tdmi::common::DataType;
use boya_core::arm7tdmi::psr::Psr;
use boya_core::bus::GbaBus;
use boya_core::bus::memory::{Bus, Ram, write_hword, write_word};

/// Stack pointer the programs start with.
const SP_START: u32 = 200;
/// Address the programs are loaded at.
const MAIN_START: u32 = 0;

/// A processor on a flat 4 KiB memory holding `words` from address 0,
/// reset into supervisor mode with SP = 200, in ARM or THUMB state.
fn boot_words(words: &[u32], thumb: bool) -> Arm7tdmi<Ram> {
    let mut ram = Ram::new(0x1000);
    for (i, w) in words.iter().enumerate() {
        write_word(&mut ram, MAIN_START + 4 * i as u32, *w);
    }
    boot(ram, thumb)
}

fn boot<B: Bus>(bus: B, thumb: bool) -> Arm7tdmi<B> {
    let mut cpu = Arm7tdmi::new(bus);
    cpu.reset();
    cpu.set_sp(SP_START);
    if thumb {
        cpu.cpsr.set_thumb_mode();
        cpu.pipeline.flush();
        cpu.set_pc(MAIN_START);
        cpu.load_pipeline();
    }
    cpu
}

fn arm(program: &[u32]) -> Arm7tdmi<Ram> {
    boot_words(program, false)
}

fn thumb(program: &[u16]) -> Arm7tdmi<Ram> {
    let mut ram = Ram::new(0x1000);
    for (i, h) in program.iter().enumerate() {
        write_hword(&mut ram, MAIN_START + 2 * i as u32, *h);
    }
    boot(ram, true)
}

fn run<B: Bus>(cpu: &mut Arm7tdmi<B>, steps: usize) {
    for _ in 0..steps {
        cpu.step();
    }
}

fn reg<B: Bus>(cpu: &Arm7tdmi<B>, r: usize, expected: u32) {
    assert!(cpu.assert_reg(vec![(r, expected)]), "R{r}: expected {expected:#x}, got {:#x}", cpu.get_reg(r));
}

fn flag<B: Bus>(cpu: &Arm7tdmi<B>, f: u32, expected: bool) {
    assert!(cpu.assert_flag(vec![(f, expected)]), "flag {f}: expected {expected}");
}

fn mem<B: Bus>(cpu: &Arm7tdmi<B>, address: u32, expected: u32, kind: DataType) {
    assert!(cpu.assert_mem(vec![(address, expected, kind)]), "memory at {address:#x}: expected {expected:#x}");
}

// ARM

#[test]
fn test_branching_link() {
    let mut cpu = arm(&[
        0xEB000001, // BL target
        0xE3A00001, // MOV R0, #1
        0xE3A01003, // back: MOV R1, #3
        0xE3A00002, // target: MOV R0, #2
        0xEAFFFFFC, // B back
    ]);
    run(&mut cpu, 4);
    reg(&cpu, 0, 2);
    reg(&cpu, 1, 3);
    reg(&cpu, 14, MAIN_START + 4);
    reg(&cpu, 15, MAIN_START + 20);
}

#[test]
fn test_operand_2() {
    let mut cpu = arm(&[
        0xE3B00002, // MOVS R0, #2
        0xE3B01005, // MOVS R1, #5
        0xE3B024FF, // MOVS R2, #0xFF000000
        0xE1B03101, // MOVS R3, R1, LSL #2
        0xE1B04033, // MOVS R4, R3, LSR R0
    ]);
    run(&mut cpu, 5);
    reg(&cpu, 0, 2);
    reg(&cpu, 2, 0xFF000000);
    reg(&cpu, 3, 20);
    reg(&cpu, 4, 5);
}

#[test]
fn test_condition() {
    let mut cpu = arm(&[
        0xE3B004FF, // MOVS R0, #0xFF000000
        0x43A01001, // MOVMI R1, #1
        0x53A01002, // MOVPL R1, #2
    ]);
    run(&mut cpu, 3);
    reg(&cpu, 1, 1);
    flag(&cpu, Psr::N, true);
}

#[test]
fn format_01_test_logical_op() {
    let mut cpu = arm(&[
        0xE3A00006, // MOV R0, #110b
        0xE2001005, // AND R1, R0, #101b
        0xE1802001, // ORR R2, R0, R1
    ]);
    run(&mut cpu, 3);
    reg(&cpu, 1, 0b100);
    reg(&cpu, 2, 0b110);
}

#[test]
fn test_arithmetic_op() {
    let mut cpu = arm(&[
        0xE3A00005, // MOV R0, #5
        0xE2601008, // RSB R1, R0, #8
        0xE0812000, // ADD R2, R1, R0
        0xE0523000, // SUBS R3, R2, R0
    ]);
    run(&mut cpu, 4);
    reg(&cpu, 1, 3);
    reg(&cpu, 2, 8);
    reg(&cpu, 3, 3);
}

#[test]
fn test_psr_transfer() {
    let mut cpu = arm(&[
        0xE10F1000, // MRS R1, CPSR
    ]);
    run(&mut cpu, 1);
    reg(&cpu, 1, 0b00000000_00000000_00000000_11010011);
}

#[test]
fn test_bx() {
    let mut cpu = arm(&[
        0xE3A0000B, // MOV R0, #1011b
        0xE12FFF10, // BX R0
    ]);
    run(&mut cpu, 2);
    reg(&cpu, 15, 14);
    flag(&cpu, Psr::T, true);
}

#[test]
fn test_multiply_long() {
    let mut cpu = arm(&[
        0xE3E00004, // MOV R0, #-5
        0xE3A01002, // MOV R1, #2
        0xE0C32190, // SMULL R2, R3, R0, R1
        0xE1A04002, // MOV R4, R2
        0xE1A05003, // MOV R5, R3
        0xE0E54190, // SMLAL R4, R5, R0, R1
    ]);
    run(&mut cpu, 6);
    reg(&cpu, 2, -10_i64 as u32);
    reg(&cpu, 3, (-10_i64 >> 32) as u32);
    reg(&cpu, 4, -20_i64 as u32);
    reg(&cpu, 5, (-20_i64 >> 32) as u32);
}

#[test]
fn test_hword_signed_transfer() {
    let mut cpu = arm(&[
        0xE3A00003, // MOV R0, 3
        0xE3A01005, // MOV R1, 5
        0xE3A02032, // MOV R2, 50
        0xE1E102BD, // STRH R0, [R1, #45]!
        0xE01230B0, // LDRH R3, [R2], -R0
    ]);
    run(&mut cpu, 5);
    mem(&cpu, 50, 3, DataType::HWord);
    reg(&cpu, 1, 50);
    reg(&cpu, 2, 47);
    reg(&cpu, 3, 3);
}

// THUMB

#[test]
fn test_logic_shift() {
    let mut cpu = thumb(&[
        0x2102, // mov r1, 2
        0x008A, // lsl r2, r1, 2
    ]);
    run(&mut cpu, 2);
    reg(&cpu, 2, 8);
    flag(&cpu, Psr::C, true);
    flag(&cpu, Psr::Z, false);
    flag(&cpu, Psr::N, false);
}

#[test]
fn test_arithmetic_shift() {
    let mut cpu = thumb(&[
        0x2000, // mov r0, 0
        0x43C1, // mvn r1, r0
        0x104A, // asr r2, r1, 1
    ]);
    run(&mut cpu, 3);
    reg(&cpu, 2, !0);
    flag(&cpu, Psr::C, true);
    flag(&cpu, Psr::Z, false);
    flag(&cpu, Psr::N, true);
}

#[test]
fn test_move() {
    let mut cpu = thumb(&[
        0x2105, // mov r1, 5
        0x43CA, // mvn r2, r1
        0x2300, // mov r3, 0
    ]);
    run(&mut cpu, 3);
    reg(&cpu, 1, 5);
    reg(&cpu, 2, !5);
    flag(&cpu, Psr::Z, true);
    flag(&cpu, Psr::N, false);
}

#[test]
fn test_hi_reg_ops() {
    let mut cpu = thumb(&[
        0x2018, // mov r0, 24
        0x4687, // mov pc, r0
    ]);
    run(&mut cpu, 2);
    reg(&cpu, 15, 28);
}

#[test]
fn test_ldr_pc_offset() {
    let mut cpu = thumb(&[
        0x4904, // ldr r1, [PC, #16]
    ]);
    write_word(&mut cpu.bus, MAIN_START + 20, 5);
    run(&mut cpu, 1);
    reg(&cpu, 1, 5);
}

#[test]
fn test_ldr_word() {
    let mut cpu = thumb(&[
        0x2048, // mov r0, 72
        0x8901, // ldrh r1, [r0, 8]
        0x8088, // strh r0, [r1, 4]
    ]);
    write_hword(&mut cpu.bus, 80, 420);
    run(&mut cpu, 3);
    reg(&cpu, 1, 420);
    mem(&cpu, 424, 72, DataType::HWord);
}

#[test]
fn test_get_relative_addr() {
    let mut cpu = thumb(&[
        0xA203, // add r2, PC, 12
        0xAB02, // add r3, SP, 8
    ]);
    run(&mut cpu, 2);
    reg(&cpu, 2, 16);
    reg(&cpu, 3, 208);
}

#[test]
fn test_add_offset_sp() {
    let mut cpu = thumb(&[
        0xB002, // add SP, 8
        0xB081, // add SP, -4
    ]);
    run(&mut cpu, 2);
    reg(&cpu, 13, 208 - 4);
}

#[test]
fn test_push_reg() {
    let mut cpu = thumb(&[
        0x2040, // mov r0, 64
        0x210D, // mov r1, 13
        0x2219, // mov r2, 25
        0xB407, // push {r0,r1,r2}
        0xBC38, // pop {r3,r4,r5}
    ]);
    run(&mut cpu, 5);
    mem(&cpu, SP_START - 4, 64, DataType::Word);
    mem(&cpu, SP_START - 8, 13, DataType::Word);
    mem(&cpu, SP_START - 12, 25, DataType::Word);
    reg(&cpu, 3, 25);
    reg(&cpu, 4, 13);
    reg(&cpu, 5, 64);
    reg(&cpu, 13, SP_START);
}

#[test]
fn test_stmia() {
    let mut cpu = thumb(&[
        0x2018, // mov r0, 24
        0x2101, // mov r1, 1
        0x2202, // mov r2, 2
        0x2303, // mov r3, 3
        0xC00E, // stmia r0!, {r1,r2,r3}
    ]);
    run(&mut cpu, 5);
    reg(&cpu, 0, 36);
    mem(&cpu, 24, 1, DataType::Word);
    mem(&cpu, 28, 2, DataType::Word);
    mem(&cpu, 32, 3, DataType::Word);
}

#[test]
fn test_ldmia() {
    let mut cpu = thumb(&[
        0x2018, // mov r0, 24
        0xC80E, // ldmia r0!, {r1,r2,r3}
    ]);
    write_word(&mut cpu.bus, 24, 1);
    write_word(&mut cpu.bus, 28, 2);
    write_word(&mut cpu.bus, 32, 3);
    run(&mut cpu, 2);
    reg(&cpu, 0, 36);
    reg(&cpu, 1, 1);
    reg(&cpu, 2, 2);
    reg(&cpu, 3, 3);
}

#[test]
fn test_immediate_branching() {
    let mut cpu = thumb(&[
        0x2105, // main: mov r1, #5
        0x2905, // cmp r1, #5
        0xD000, // beq branch
        0x2201, // mov r2, #1
        0x2202, // branch: mov r2, #2
    ]);
    run(&mut cpu, 4);
    reg(&cpu, 2, 2);
}

#[test]
fn test_offset_branching() {
    let mut cpu = thumb(&[
        0x2105, // main: mov r1, #5
        0x2905, // cmp r1, #5
        0xD001, // beq branch
        0x2201, // mov r2, #1
        0x2304, // mov r3, #4
        0x2103, // branch: mov r1, #3
        0x2202, // mov r2, #2
    ]);
    run(&mut cpu, 5);
    reg(&cpu, 3, 0);
    reg(&cpu, 1, 3);
    reg(&cpu, 2, 2);
}

#[test]
fn test_unconditional_branch() {
    let mut cpu = thumb(&[
        0xE001, // main: b target
        0x2001, // mov r0, #1
        0x2204, // back: mov r2, #4
        0x2102, // target: mov r1, #2
        0xE7FC, // b back
    ]);
    run(&mut cpu, 4);
    reg(&cpu, 0, 0);
    reg(&cpu, 1, 2);
    reg(&cpu, 2, 4);
    reg(&cpu, 15, 10);
}

#[test]
fn test_looooong_branch() {
    let mut cpu = thumb(&[
        0xF000, 0xF802, // main: bl target
        0x2001, // mov r0, #1
        0x2204, // last: mov r2, #4
        0x2102, // target: mov r1, #2
        0xF7FF, 0xFFFC, // bl last
    ]);
    run(&mut cpu, 6);
    reg(&cpu, 0, 0);
    reg(&cpu, 1, 2);
    reg(&cpu, 2, 4);
    reg(&cpu, 15, 12);
}

#[test]
fn test_add_carry() {
    let mut cpu = thumb(&[
        0x2005, // mov r0, 5
        0x1E81, // sub r1, r0, 2
        0x4148, // adc r0, r1
    ]);
    run(&mut cpu, 4);
    reg(&cpu, 0, 9);
    flag(&cpu, Psr::C, false);
    flag(&cpu, Psr::Z, false);
    flag(&cpu, Psr::N, false);
    flag(&cpu, Psr::V, false);
}

#[test]
fn test_sub_carry() {
    let mut cpu = thumb(&[
        0x2005, // mov r0, 5
        0x2101, // mov r1, 1
        0x4188, // sbc r0, r1
    ]);
    run(&mut cpu, 4);
    reg(&cpu, 0, 3);
    flag(&cpu, Psr::C, false);
    flag(&cpu, Psr::Z, false);
    flag(&cpu, Psr::N, false);
    flag(&cpu, Psr::V, false);
}

#[test]
fn test_negation() {
    let mut cpu = thumb(&[
        0x2002, // mov r0, 2
        0x4241, // neg r1, r0
    ]);
    run(&mut cpu, 2);
    reg(&cpu, 1, -2i32 as u32);
    flag(&cpu, Psr::C, false);
    flag(&cpu, Psr::Z, false);
    flag(&cpu, Psr::N, true);
    flag(&cpu, Psr::V, false);
}

#[test]
fn format_4_test_logical_op() {
    let mut cpu = thumb(&[
        0x2002, // mov r0, 2
        0x2101, // mov r1, 1
        0x2202, // mov r2, 2
        0x2303, // mov r3, 3
        0x4301, // orr r1, r0
        0x4393, // bic r3, r2
    ]);
    run(&mut cpu, 6);
    reg(&cpu, 1, 3);
    reg(&cpu, 3, 1);
    flag(&cpu, Psr::Z, false);
    flag(&cpu, Psr::N, false);
}

#[test]
fn test_mul_basic() {
    let mut cpu = thumb(&[
        0x2002, // mov r0, 2
        0x2103, // mov r1, 3
        0x1A0A, // sub r2, r1, r0 ; sets carry
        0x4348, // mul r0, r1
    ]);
    run(&mut cpu, 4);
    reg(&cpu, 0, 6);
    flag(&cpu, Psr::C, false);
}

#[test]
fn test_ldr_str_reg_offset() {
    let mut bus = GbaBus::new();
    let program: [u16; 6] = [
        0x2003, // mov r0, #3
        0x2102, // mov r1, #2
        0x0609, // lsl r1, r1, #24 ; 0x0200_0000
        0x2208, // mov r2, #8
        0x5088, // str r0, [r1, r2]
        0x588B, // ldr r3, [r1, r2]
    ];
    for (i, h) in program.iter().enumerate() {
        bus.bios[2 * i] = *h as u8;
        bus.bios[2 * i + 1] = (*h >> 8) as u8;
    }
    let mut cpu = boot(bus, true);
    run(&mut cpu, 6);
    mem(&cpu, 0x0200_0008, 3, DataType::Word);
    reg(&cpu, 3, 3);
}
