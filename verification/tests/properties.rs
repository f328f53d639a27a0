use boya_core::apu::registers::ApuRegister;
use boya_core::arm7tdmi::Arm7tdmi;
use boya_core::arm7tdmi::arm::ArmInstr;
use boya_core::arm7tdmi::arm::format_01::Format1 as DataProcessing;
use boya_core::arm7tdmi::isa::{Executable, dispatch_checked};
use boya_core::arm7tdmi::common::{Condition, Cycle, Exception, LongOperand, NamedRegister, OperatingMode, ToOperand, format_rlist};
use boya_core::arm7tdmi::psr::Psr;
use boya_core::arm7tdmi::thumb::ThumbInstr;
use boya_core::bus::GbaBus;
use boya_core::bus::debug::io_map::io_map;
use boya_core::bus::debug::types::{RegisterEntry, RegisterSize};
use boya_core::bus::memory::{Bus, Ram, read_hword, read_word, write_hword, write_word};
use boya_core::bus::register::SystemControl;
use boya_core::bus::registers::dma::{DmaAddressControl, DmaChannel, Dma};
use boya_core::bus::registers::interrupt::InterruptFlag;
use boya_core::bus::registers::keypad::{KeyIrqCondition, Keypad};
use boya_core::bus::registers::timer::{Timer, TimerUnit};
use boya_core::bus::types::{Cycle as BusCycle, DataType, MemoryAccess, WaitState};
use boya_core::utils::collections::FifoBuffer;

fn arm_cpu(program: &[u32]) -> Arm7tdmi<Ram> {
    let mut ram = Ram::new(0x1000);
    for (i, w) in program.iter().enumerate() {
        write_word(&mut ram, 4 * i as u32, *w);
    }
    let mut cpu = Arm7tdmi::new(ram);
    cpu.reset();
    cpu.set_sp(200);
    cpu
}

// Register file

#[test]
fn register_read_after_write() {
    let mut cpu = arm_cpu(&[]);
    cpu.set_reg(3, 0xDEAD_BEEF);
    cpu.set_reg(4, 7);
    assert_eq!(cpu.get_reg(3), 0xDEAD_BEEF);
    assert_eq!(cpu.get_reg(4), 7);
}

#[test]
fn banked_registers_are_per_mode() {
    let mut cpu = arm_cpu(&[]);
    cpu.set_reg(13, 111); // SVC stack pointer
    cpu.cpsr.set_operating_mode(OperatingMode::SYS);
    cpu.set_reg(13, 222); // user/system stack pointer
    cpu.set_reg(8, 8);
    cpu.cpsr.set_operating_mode(OperatingMode::FIQ);
    cpu.set_reg(8, 88); // FIQ has its own R8
    assert_eq!(cpu.get_reg(8), 88);
    cpu.cpsr.set_operating_mode(OperatingMode::SVC);
    assert_eq!(cpu.get_reg(13), 111);
    assert_eq!(cpu.get_reg(8), 8);
    cpu.cpsr.set_operating_mode(OperatingMode::SYS);
    assert_eq!(cpu.get_reg(13), 222);
}

// Comparison and conditions

fn compare(x: u32, y: u32) -> Psr {
    let mut cpu = arm_cpu(&[]);
    cpu.set_reg(0, x);
    cpu.set_reg(1, y);
    cpu.cmp(0, 1u8.reg(), true);
    cpu.cpsr
}

#[test]
fn compare_sets_conditions() {
    let p = compare(5, 3);
    assert!(p.matches(Condition::NE) && p.matches(Condition::CS) && p.matches(Condition::HI));
    assert!(p.matches(Condition::GE) && p.matches(Condition::GT) && !p.matches(Condition::LT));
    let p = compare(3, 3);
    assert!(p.matches(Condition::EQ) && p.matches(Condition::CS) && p.matches(Condition::LS));
    assert!(p.matches(Condition::GE) && p.matches(Condition::LE) && !p.matches(Condition::GT));
    // 0xFFFF_FFFF is above 1 unsigned, below it signed.
    let p = compare(0xFFFF_FFFF, 1);
    assert!(p.matches(Condition::HI) && p.matches(Condition::CS));
    assert!(p.matches(Condition::LT) && !p.matches(Condition::GE) && p.matches(Condition::MI));
    // signed overflow: i32::MIN - 1
    let p = compare(0x8000_0000, 1);
    assert!(p.matches(Condition::VS) && p.matches(Condition::LT) && !p.matches(Condition::MI));
}

// Exceptions

#[test]
fn exception_saves_and_restores_cpsr() {
    let mut cpu = arm_cpu(&[0xE3A00001; 16]); // MOV R0, #1 everywhere
    cpu.cpsr.set_operating_mode(OperatingMode::USR);
    cpu.cpsr.update(Psr::C, true);
    cpu.cpsr.update(Psr::I, false);
    let before = cpu.cpsr;
    cpu.handle_exception(Exception::SoftwareInterrupt);
    assert_eq!(cpu.cpsr.operating_mode(), OperatingMode::SVC);
    assert!(!cpu.cpsr.thumb());
    assert!(!cpu.cpsr.has(Psr::I)); // a software interrupt keeps the IRQ mask
    assert_eq!(cpu.bank.get_spsr(OperatingMode::SVC), Some(before));
    assert_eq!(cpu.pipeline.curr_pc, 0x08);
    cpu.restore_cpsr();
    assert_eq!(cpu.cpsr, before);
}

#[test]
fn reset_enters_supervisor_mode() {
    let mut cpu = Arm7tdmi::new(Ram::new(0x100));
    cpu.reset();
    assert_eq!(cpu.cpsr.value(), 0xD3);
    assert_eq!(cpu.pc(), 8);
}

#[test]
fn undefined_instruction_enters_undefined_mode() {
    // 0xE6000010 has bits 27-25 = 011: not a decoded class
    let mut cpu = arm_cpu(&[0xE6000010]);
    assert!(matches!(cpu.decode_arm(0xE6000010), ArmInstr::Undefined(_)));
    let cycles = cpu.step();
    assert_eq!(cycles, 3);
    assert_eq!(cpu.cpsr.operating_mode(), OperatingMode::UND);
    // entry refills the pipeline from the vector and the step refills it
    // once more, so the instruction after the vector is the next to run
    assert_eq!(cpu.pipeline.curr_pc, 0x08);
    // the return address goes to the link register of the interrupted mode
    assert_eq!(cpu.get_reg(14), 0);
    cpu.cpsr.set_operating_mode(OperatingMode::SVC);
    assert_eq!(cpu.get_reg(14), 4);
}

// Flags and store order of single instructions

#[test]
fn shift_left_carry_from_bit_amount_minus_one() {
    let mut cpu = arm_cpu(&[]);
    cpu.set_reg(1, 0b11);
    cpu.lsl(2, 1, 2u8.imm());
    assert_eq!(cpu.get_reg(2), 0b1100);
    assert!(cpu.cpsr.c()); // bit 1 of the operand
    cpu.set_reg(1, 0x8000_0001);
    cpu.lsl(2, 1, 2u8.imm());
    assert!(!cpu.cpsr.c()); // bit 1 of the operand, not the bit shifted out
}

#[test]
fn subtract_with_carry_leaves_borrow() {
    let mut cpu = arm_cpu(&[]);
    cpu.set_reg(0, 1);
    cpu.set_reg(1, 5);
    cpu.cpsr.update(Psr::C, true);
    cpu.sbc(2, 0, 1u8.reg(), true);
    assert_eq!(cpu.get_reg(2), 1u32.wrapping_sub(5));
    assert!(cpu.cpsr.c()); // 1 - 5 borrows
}

#[test]
fn push_stores_lowest_register_highest() {
    let mut cpu = arm_cpu(&[]);
    cpu.set_reg(0, 10);
    cpu.set_reg(1, 11);
    cpu.set_reg(14, 14);
    let cycles = cpu.push(0b11, true);
    assert_eq!(cycles.s, 3);
    assert_eq!(read_word(&cpu.bus, 196), 10);
    assert_eq!(read_word(&cpu.bus, 192), 11);
    assert_eq!(read_word(&cpu.bus, 188), 14);
    assert_eq!(cpu.get_reg(13), 188);
}

#[test]
fn dispatch_checked_skips_a_failed_condition() {
    // MOVNE R0, #1 with Z set: one sequential cycle and nothing changes
    let instr = DataProcessing::from(0x13A00001);
    assert_eq!(Executable::<Ram>::condition(&instr), Condition::NE);
    let mut cpu = arm_cpu(&[]);
    cpu.cpsr.update(Psr::Z, true);
    let cycles = dispatch_checked(instr, &mut cpu);
    assert_eq!((cycles.i, cycles.s, cycles.n), (0, 1, 0));
    assert_eq!(cpu.get_reg(0), 0);
    // with Z clear the move runs
    cpu.cpsr.update(Psr::Z, false);
    dispatch_checked(instr, &mut cpu);
    assert_eq!(cpu.get_reg(0), 1);
}

#[test]
fn step_cycles_of_a_branch() {
    let mut cpu = arm_cpu(&[0xEA000000]); // B +0
    assert_eq!(cpu.step(), 3); // 2S + 1N
}

#[test]
fn instruction_cycle_count() {
    assert_eq!(Cycle { i: 1, s: 2, n: 3 }.count(), 6);
}

// Decoding

#[test]
fn decode_classes() {
    let cpu = arm_cpu(&[]);
    assert!(matches!(cpu.decode_arm(0xE3A00001), ArmInstr::Format01(_)));
    assert!(matches!(cpu.decode_arm(0xE10F1000), ArmInstr::Format02(_)));
    assert!(matches!(cpu.decode_arm(0xE12FFF10), ArmInstr::Format03(_)));
    assert!(matches!(cpu.decode_arm(0xE0000291), ArmInstr::Format04(_)));
    assert!(matches!(cpu.decode_arm(0xE0C32190), ArmInstr::Format05(_)));
    assert!(matches!(cpu.decode_arm(0xE1020091), ArmInstr::Format06(_)));
    assert!(matches!(cpu.decode_arm(0xE1E102BD), ArmInstr::Format07(_)));
    assert!(matches!(cpu.decode_arm(0xE8BD0003), ArmInstr::Format08(_)));
    assert!(matches!(cpu.decode_arm(0xEB000001), ArmInstr::Format09(_)));
    assert!(matches!(cpu.decode_arm(0xEF000000), ArmInstr::Format10(_)));
}

#[test]
fn decode_thumb_half_by_pc() {
    let mut cpu = arm_cpu(&[]);
    cpu.cpsr.set_thumb_mode();
    cpu.set_pc(2);
    // the low half at an even PC, the high half at an odd one
    assert!(matches!(cpu.decode_thumb(0xB407_2105), ThumbInstr::Format03(_)));
    cpu.set_pc(3);
    assert!(matches!(cpu.decode_thumb(0xB407_2105), ThumbInstr::Format14(_)));
}

// Memory

#[test]
fn ram_word_read_after_write() {
    let mut ram = Ram::new(16);
    write_word(&mut ram, 4, 0x1234_5678);
    assert_eq!(read_word(&ram, 4), 0x1234_5678);
    assert_eq!(ram.read_byte(4), 0x78);
    assert_eq!(ram.read_byte(7), 0x12);
    assert_eq!(read_word(&ram, 0), 0);
    // past the end: reads 0, writes dropped
    ram.write_byte(100, 9);
    assert_eq!(ram.read_byte(100), 0);
}

#[test]
fn register_bytes_read_after_write() {
    let mut h: u16 = 0x1234;
    h.write_byte(1, 0xAB);
    assert_eq!(h, 0xAB34);
    assert_eq!(h.read_byte(0), 0x34);
    let mut w: u32 = 0x1122_3344;
    w.write_byte(2, 0xFF);
    assert_eq!(w, 0x11FF_3344);
    assert_eq!(w.read_byte(3), 0x11);
}

#[test]
fn work_ram_mirrors() {
    let mut bus = GbaBus::new();
    write_word(&mut bus, 0x0200_0010, 0xCAFE_F00D);
    assert_eq!(read_word(&bus, 0x0200_0010), 0xCAFE_F00D);
    assert_eq!(read_word(&bus, 0x0204_0010), 0xCAFE_F00D); // 256 KiB mirror
    write_hword(&mut bus, 0x0300_8000, 0xBEEF); // IWRAM mirror of 0x0300_0000
    assert_eq!(read_hword(&bus, 0x0300_0000), 0xBEEF);
    bus.write_byte(0x0E00_0001, 7);
    assert_eq!(bus.read_byte(0x0F01_0001), 7);
    // BIOS and ROM ignore writes
    bus.write_byte(0x10, 1);
    assert_eq!(bus.read_byte(0x10), 0);
    bus.rom.push(0x42);
    assert_eq!(bus.read_byte(0x0800_0000), 0x42);
    assert_eq!(bus.read_byte(0x0A00_0000), 0x42); // wait state 1 mirror
    assert_eq!(bus.read_byte(0x0800_0001), 0);
}

#[test]
fn io_registers_through_the_bus() {
    let mut bus = GbaBus::new();
    write_hword(&mut bus, 0x0400_0200, 0x0101);
    assert_eq!(bus.io.ie, 0x0101);
    assert_eq!(read_hword(&bus, 0x0400_0200), 0x0101);
    // DMA addresses are write-only on the bus but visible to a debugger
    write_word(&mut bus, 0x0400_00B0, 0x0800_0004);
    assert_eq!(bus.io.dma0.sad, 0x0800_0004);
    assert_eq!(read_word(&bus, 0x0400_00B0), 0);
    assert_eq!(bus.peek_word(0x0400_00B0), 0x0800_0004);
    // key status is read-only
    write_hword(&mut bus, 0x0400_0130, 0);
    assert_eq!(read_hword(&bus, 0x0400_0130), 0x3FF);
    // sound bias
    assert_eq!(read_hword(&bus, 0x0400_0088), 0x200);
}

// Interrupts

#[test]
fn interrupt_needs_master_and_enable() {
    let mut bus = GbaBus::new();
    bus.send_interrupt(InterruptFlag::Timer0);
    assert!(!bus.io.has_irq(InterruptFlag::Timer0));
    bus.io.enable_master_irq();
    bus.send_interrupt(InterruptFlag::Timer0);
    assert!(!bus.io.has_irq(InterruptFlag::Timer0));
    bus.io.enable_irq(InterruptFlag::Timer0);
    bus.send_interrupt(InterruptFlag::Timer0);
    assert!(bus.io.has_irq(InterruptFlag::Timer0));
    assert!(!bus.io.has_irq(InterruptFlag::Timer1));
    assert!(bus.io.has_pending_irq());
}

#[test]
fn keypad_conditions() {
    let mut k = Keypad::default();
    assert_eq!(k.poll_interrupt(), None);
    k.keycnt = (1 << 14) | 0b1; // OR on button A
    assert_eq!(k.irq_condition(), KeyIrqCondition::Or);
    assert_eq!(k.poll_interrupt(), Some(InterruptFlag::Keypad));
    k.keycnt = (1 << 15) | (1 << 14) | 0b1; // AND on button A, not pressed
    assert_eq!(k.poll_interrupt(), None);
    k.keyinput &= !1; // press A
    assert_eq!(k.poll_interrupt(), Some(InterruptFlag::Keypad));
}

// Timers

#[test]
fn timer_counts_and_overflows() {
    let mut t = Timer::new(TimerUnit::Timer2);
    assert!(!t.tick(100, false)); // stopped
    t.cnt_l = 0xFFF0;
    t.write_byte(2, 0xC0); // start, IRQ enable, prescaler 1: reloads the counter
    assert_eq!(t.counter, 0xFFF0);
    assert!(!t.tick(5, false));
    assert_eq!(t.counter, 0xFFF5);
    assert!(t.tick(11, false)); // 0xFFFF then overflow to the reload value
    assert_eq!(t.counter, 0xFFF0);
    assert_eq!(t.poll_interrupt(), Some(InterruptFlag::Timer2));
    assert_eq!(t.poll_interrupt(), None);
}

#[test]
fn timer_prescaler_keeps_remainder() {
    let mut t = Timer::new(TimerUnit::Timer0);
    t.write_byte(2, 0x81); // start, prescaler 64
    t.tick(100, false);
    assert_eq!(t.counter, 1);
    assert_eq!(t.divider, 36);
    t.tick(28, false);
    assert_eq!(t.counter, 2);
    assert_eq!(t.divider, 0);
}

#[test]
fn timers_cascade_on_the_bus() {
    let mut bus = GbaBus::new();
    bus.io.timer0.cnt_l = 0xFFFF;
    bus.io.timer0.write_byte(2, 0x80);
    bus.io.timer1.write_byte(2, 0x84); // count-up
    bus.tick(1);
    assert_eq!(bus.io.timer1.counter, 1);
    assert_eq!(bus.io.timer0.counter, 0xFFFF);
}

// DMA

#[test]
fn dma_transfer_lengths() {
    let mut d = Dma::new(DmaChannel::Dma0);
    assert_eq!(d.transfer_len(), 0x4000);
    d.cnt_l = 0xC005;
    assert_eq!(d.transfer_len(), 5);
    let mut d3 = Dma::new(DmaChannel::Dma3);
    assert_eq!(d3.transfer_len(), 0x10000);
    d3.cnt_l = 0xC005;
    assert_eq!(d3.transfer_len(), 0xC005);
    d3.cnt_h = 0b10 << 5;
    assert_eq!(d3.dst_addr_control(), DmaAddressControl::Fixed);
}

#[test]
fn immediate_dma_copies_and_interrupts() {
    let mut bus = GbaBus::new();
    for (i, b) in [1u8, 2, 3, 4, 5, 6, 7, 8].iter().enumerate() {
        bus.write_byte(0x0200_0000 + i as u32, *b);
    }
    bus.io.enable_master_irq();
    bus.io.enable_irq(InterruptFlag::Dma0);
    bus.io.dma0.sad = 0x0200_0000;
    bus.io.dma0.dad = 0x0300_0000;
    bus.io.dma0.cnt_l = 4;
    bus.io.dma0.cnt_h = (1 << 15) | (1 << 14); // enable, IRQ, immediate, 16-bit
    let result = bus.try_dma().expect("transfer");
    assert_eq!(result.data.transfer_len, 4);
    // 1N + 3S reads (EWRAM 3 each), 1N + 3S writes (1 each), 2 internal
    assert_eq!(result.cycles.count(), 3 + 3 * 3 + 1 + 3 + 2);
    for i in 0..8u32 {
        assert_eq!(bus.read_byte(0x0300_0000 + i), (i + 1) as u8);
    }
    assert!(!bus.io.dma0.dma_enable());
    assert!(bus.io.has_irq(InterruptFlag::Dma0));
    assert!(bus.try_dma().is_none());
}

// Sound

#[test]
fn fifo_queue_order_and_capacity() {
    let mut f = FifoBuffer::new();
    assert_eq!(f.pop(), None);
    for v in 1..=9u8 {
        f.push(v);
    }
    assert_eq!(f.len(), 8);
    assert_eq!(f.pop(), Some(1));
    assert_eq!(f.pop(), Some(2));
    f.clear();
    assert_eq!(f.len(), 0);
}

#[test]
fn sound_fifo_reset_and_timer_overflow() {
    let mut apu = ApuRegister::default();
    apu.write_byte(0x0400_00A0, 5);
    apu.write_byte(0x0400_00A1, 6);
    assert_eq!(apu.fifo_a.buffer.len(), 2);
    apu.write_byte(0x0400_0083, 0x08); // cnt_h bit 11: reset FIFO A
    assert_eq!(apu.fifo_a.buffer.len(), 0);
    assert_eq!(apu.soundcnt.cnt_h & (1 << 11), 0);
    let mut bus = GbaBus::new();
    bus.apu.registers.fifo_a.buffer.push(1);
    bus.apu.on_timer_overflow(boya_core::bus::registers::dma::DmaTimer::Timer0);
    assert!(bus.apu.poll_fifo_a_request());
    assert!(!bus.apu.poll_fifo_a_request());
    assert_eq!(bus.apu.registers.fifo_a.buffer.len(), 0);
}

// Bus timing

#[test]
fn bus_cycle_formulas() {
    let ws = WaitState { n: 4, s: 2 };
    assert_eq!(BusCycle::new(1, 2, 1, ws).count(), 1 + 2 * 2 + 2 + 4 + 1);
    assert_eq!(BusCycle::internal(3).repeat(4).count(), 12);
    assert_eq!(BusCycle(5).add(BusCycle(6)).count(), 11);
    let bus = GbaBus::new();
    assert_eq!(bus.rw_cycle(0x0200_0000, DataType::Word, MemoryAccess::Sequential).count(), 6);
    assert_eq!(bus.rw_cycle(0x0200_0000, DataType::HWord, MemoryAccess::NonSequential).count(), 3);
    assert_eq!(bus.rw_cycle(0x0600_0000, DataType::Word, MemoryAccess::NonSequential).count(), 2);
    assert_eq!(bus.rw_cycle(0x0800_0000, DataType::Byte, MemoryAccess::NonSequential).count(), 1);
}

#[test]
fn game_pak_wait_states() {
    let mut sc = SystemControl::default();
    assert_eq!(sc.get_waitstate(0x0800_0000, MemoryAccess::NonSequential), 4);
    assert_eq!(sc.get_waitstate(0x0A00_0000, MemoryAccess::Sequential), 4);
    assert_eq!(sc.get_waitstate(0x0C00_0000, MemoryAccess::Sequential), 8);
    assert_eq!(sc.get_waitstate(0x0E00_0000, MemoryAccess::Sequential), 1);
    sc.write(0x0400_0204, 0b0000_0111); // SRAM 3, WS0 first access 1
    assert_eq!(sc.read(0x0400_0204), 0b0000_0111);
    assert_eq!(sc.get_waitstate(0x0E00_0000, MemoryAccess::NonSequential), 8);
    assert_eq!(sc.get_waitstate(0x0800_0000, MemoryAccess::NonSequential), 3);
}

// Debugger views

#[test]
fn register_list_text() {
    assert_eq!(format_rlist(0b1011, None), "{R0,R1,R3}");
    assert_eq!(format_rlist(0b101, Some(NamedRegister::LR)), "{R0,R2,LR}");
    assert_eq!(format_rlist(0, Some(NamedRegister::PC)), "{PC}");
    assert_eq!(format_rlist(0, None), "{}");
    assert_eq!(format_rlist(0x8000, None), "{R15}");
}

#[test]
fn io_register_table() {
    let map = io_map();
    assert_eq!(map.len(), 61);
    assert_eq!(map[0].name, "DISPCNT");
    let dma0 = &map[33];
    assert_eq!(dma0.name, "DMA0CNT_H");
    assert_eq!(dma0.address, 0x0BA);
    assert_eq!(dma0.flags.len(), 9);
    assert_eq!(dma0.flags[1].name, "Dest Address Control");
    assert_eq!(dma0.flags[1].mappings.as_ref().unwrap()[3], (3, "Increment Reload"));
    let halt = RegisterEntry::haltcnt_h();
    assert_eq!(halt.size, RegisterSize::Byte);
    let cnt_l = RegisterEntry::dma_cnt_l::<16>("DMA3CNT_L", 0x0DC);
    assert_eq!(cnt_l.flags.len(), 1);
}

// Instruction listings

#[test]
fn arm_listing_text() {
    let cpu = arm_cpu(&[]);
    assert_eq!(cpu.decode_arm(0xE3A00001).text(), "MOVAL R0, #1 ; arm 01");
    assert_eq!(cpu.decode_arm(0xE0921103).text(), "ADDALS R1, R2, R3, LSL #2 ; arm 01");
    assert_eq!(cpu.decode_arm(0xEAFFFFFE).text(), "BAL -8 ; arm 09");
    assert_eq!(cpu.decode_arm(0xE12FFF10).text(), "BXAL R0 ; arm 03");
    assert_eq!(cpu.decode_arm(0xE6000010).text(), "e6000010 ; arm undefined");
}

#[test]
fn thumb_listing_text() {
    let mut cpu = arm_cpu(&[]);
    cpu.cpsr.set_thumb_mode();
    cpu.set_pc(2);
    assert_eq!(cpu.decode_thumb(0x2001).text(), "MOV R0, #1 ; thumb 03");
    assert_eq!(cpu.decode_thumb(0xB501).text(), "PUSH {{R0,LR}} ; thumb 14");
    assert_eq!(cpu.decode_thumb(0xE7FE).text(), "B -4 ; thumb 18");
    assert_eq!(cpu.decode_thumb(0xDF05).text(), "SWI 5 ; thumb 17");
}

#[test]
fn operand_and_status_text() {
    assert_eq!(5u8.imm().not().text(), "#-5");
    assert_eq!(12u8.reg().text(), "R12");
    let mut cpu = Arm7tdmi::new(Ram::new(0x100));
    cpu.reset();
    assert_eq!(cpu.cpsr.text(), "N: 0, Z: 0, C: 0, V: 0, I: 1, F: 1, T: 0, M: SVC");
}

#[test]
fn fresh_bus_access_times() {
    let bus = GbaBus::new();
    assert_eq!(bus.rw_cycle(0x0200_0000, DataType::Word, MemoryAccess::NonSequential).count(), 6);
    assert_eq!(bus.rw_cycle(0x0200_0000, DataType::HWord, MemoryAccess::Sequential).count(), 3);
    assert_eq!(bus.rw_cycle(0x0200_0000, DataType::Byte, MemoryAccess::NonSequential).count(), 1);
    assert_eq!(bus.rw_cycle(0x0500_0000, DataType::Word, MemoryAccess::Sequential).count(), 2);
    assert_eq!(bus.rw_cycle(0x0800_0000, DataType::Word, MemoryAccess::NonSequential).count(), 1);
}

#[test]
fn iwram_word_read_after_write() {
    let mut bus = GbaBus::new();
    let a = 0x0300_1000;
    write_word(&mut bus, a, 0xDEAD_BEEF);
    assert_eq!(read_word(&bus, a), 0xDEAD_BEEF);
    assert_eq!(read_hword(&bus, a), 0xBEEF);
    assert_eq!(bus.read_byte(a), 0xEF);
    assert_eq!(bus.read_byte(a + 3), 0xDE);
    assert_eq!(read_word(&bus, a ^ 0x8000), 0xDEAD_BEEF);
    assert_eq!(read_word(&bus, 0x03FF_1000), 0xDEAD_BEEF);
    // a word at the end of the 32 KiB wraps to its start
    write_word(&mut bus, 0x0300_7FFE, 0x1122_3344);
    assert_eq!(read_word(&bus, 0x0300_7FFE), 0x1122_3344);
    assert_eq!(read_hword(&bus, 0x0300_0000), 0x1122);
}

#[test]
fn palette_and_object_memory() {
    let mut bus = GbaBus::new();
    write_hword(&mut bus, 0x0500_0002, 0x7FFF);
    assert_eq!(read_hword(&bus, 0x0500_0002), 0x7FFF);
    assert_eq!(read_hword(&bus, 0x0500_0402), 0x7FFF); // mirrored every 1 KiB
    bus.write_byte(0x0700_03FF, 0x5A);
    assert_eq!(bus.read_byte(0x07FF_FFFF), 0x5A);
    bus.write_byte(0x0600_0000, 0x5A);
    assert_eq!(bus.read_byte(0x0600_0000), 0); // video RAM is not modelled
    bus.reset();
    assert_eq!(read_hword(&bus, 0x0500_0002), 0);
    assert_eq!(bus.read_byte(0x0700_03FF), 0);
}

#[test]
fn multiply_is_product_plus_accumulator() {
    let mut cpu = arm_cpu(&[]);
    cpu.set_reg(0, (-2i32) as u32);
    cpu.set_reg(1, 3);
    cpu.smull(LongOperand::new(2, 3), 0, 1, false);
    // -6 as a 64-bit two's complement number
    assert_eq!((cpu.get_reg(3), cpu.get_reg(2)), (0xFFFF_FFFF, 0xFFFF_FFFA));
    cpu.umull(LongOperand::new(2, 3), 0, 1, false);
    // (2^32 - 2) * 3
    assert_eq!((cpu.get_reg(3), cpu.get_reg(2)), (2, 0xFFFF_FFFA));
    cpu.set_reg(4, 10);
    cpu.mla(5, 0, 1, 4, false);
    assert_eq!(cpu.get_reg(5), 4); // -6 + 10
}

#[test]
fn shifts_are_arithmetic() {
    let mut cpu = arm_cpu(&[]);
    cpu.set_reg(1, 0x8000_0010);
    cpu.asr(2, 1, 4u8.imm());
    assert_eq!(cpu.get_reg(2), 0xF800_0001); // floor(signed / 16)
    cpu.lsr(2, 1, 4u8.imm());
    assert_eq!(cpu.get_reg(2), 0x0800_0001);
    cpu.lsl(2, 1, 4u8.imm());
    assert_eq!(cpu.get_reg(2), 0x0000_0100); // modulo 2^32
    cpu.set_reg(1, 0x0000_0003);
    cpu.set_reg(3, 1);
    cpu.ror(2, 1, 3u8.reg());
    assert_eq!(cpu.get_reg(2), 0x8000_0001); // low bit moves to the top
}
