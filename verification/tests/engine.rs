use unes_cpu::AddrMode;
use unes_cpu::BREAK_FLAG;
use unes_cpu::CARRY_FLAG;
use unes_cpu::CPU;
use unes_cpu::CpuError;
use unes_cpu::Memory;
use unes_cpu::NEGATIVE_FLAG;
use unes_cpu::UNUSED_FLAG;
use unes_cpu::ZERO_FLAG;
use unes_cpu::opcodes::match_opcode;
use unes_cpu::opcodes::Op;

#[test]
fn test_power_on_state() {
    let cpu = CPU::new();
    assert!(cpu.reg_a == 0x00);
    assert!(cpu.reg_x == 0x00);
    assert!(cpu.reg_y == 0x00);
    assert!(cpu.pc == 0x0000);
    assert!(cpu.sp == 0xff);
    assert!(cpu.status == BREAK_FLAG | UNUSED_FLAG);
    assert!(!cpu.running);
    assert!(cpu.memory.read(0x0000) == 0x00);
    assert!(cpu.memory.read(0xffff) == 0x00);
}

#[test]
fn test_zero_page_x_wraps_in_zero_page() {
    // operand 0xFF plus index 0x02 must give 0x0001, never 0x0101
    let mut cpu = CPU::new();
    cpu.load_executable(0x8000, &[0xb5, 0xff, 0x00]);
    cpu.load(0x0001, &[0x5a]);
    cpu.load(0x0101, &[0xa5]);
    cpu.reg_x = 0x02;
    cpu.run().unwrap();
    assert!(cpu.reg_a == 0x5a);
}

#[test]
fn test_load_read_round_trip() {
    let mut cpu = CPU::new();
    let bytes = [0x12, 0x00, 0xff, 0x80, 0x7f];
    cpu.load(0x1234, &bytes);
    for (i, byte) in bytes.iter().enumerate() {
        assert!(cpu.memory.read(0x1234 + i as u16) == *byte);
    }
    // an address outside the written range keeps its contents
    assert!(cpu.memory.read(0x1233) == 0x00);
    assert!(cpu.memory.read(0x1239) == 0x00);
}

#[test]
fn test_load_touches_no_control_state() {
    let mut cpu = CPU::new();
    cpu.pc = 0x4321;
    cpu.load(0x2000, &[0x01, 0x02]);
    assert!(cpu.pc == 0x4321);
    assert!(!cpu.running);
}

#[test]
fn test_load_executable_sets_entry_point() {
    let mut cpu = CPU::new();
    cpu.load_executable(0x0600, &[0xa9, 0x01, 0x00]);
    assert!(cpu.pc == 0x0600);
    assert!(cpu.running);
    assert!(cpu.memory.read(0x0600) == 0xa9);
}

#[test]
fn test_word_little_endian_order() {
    let mut mem = Memory::new();
    mem.write(0x0010, 0x34);
    mem.write(0x0011, 0x12);
    assert!(mem.read_u16(0x0010) == 0x1234);
    mem.write_u16(0x0020, 0xbeef);
    assert!(mem.read(0x0020) == 0xef);
    assert!(mem.read(0x0021) == 0xbe);
    assert!(mem.read_u16(0x0020) == 0xbeef);
}

#[test]
fn test_word_access_wraps_at_top_of_memory() {
    // a word access at 0xFFFF takes its high byte from 0x0000
    let mut mem = Memory::new();
    mem.write_u16(0xffff, 0xabcd);
    assert!(mem.read(0xffff) == 0xcd);
    assert!(mem.read(0x0000) == 0xab);
    assert!(mem.read_u16(0xffff) == 0xabcd);
}

#[test]
fn test_step_rejects_unsupported_opcode() {
    let mut cpu = CPU::new();
    cpu.load_executable(0x8000, &[0x02]);
    let r = cpu.step();
    assert!(r == Err(CpuError::UnsupportedOpcode(0x02)));
    // the failing step leaves the state untouched
    assert!(cpu.pc == 0x8000);
    assert!(cpu.running);
}

#[test]
fn test_run_stops_on_unsupported_opcode() {
    let mut cpu = CPU::new();
    cpu.load_executable(0x8000, &[0xa9, 0x05, 0x02]);
    let r = cpu.run();
    assert!(r == Err(CpuError::UnsupportedOpcode(0x02)));
    // the instruction before the bad byte still took effect
    assert!(cpu.reg_a == 0x05);
    assert!(cpu.pc == 0x8002);
}

#[test]
fn test_jmp_pointer_at_page_end_reads_next_page() {
    // this engine reads the high pointer byte from the following
    // address even when the low pointer byte sits at 0xFF
    let mut cpu = CPU::new();
    cpu.load_executable(0x8000, &[0x6c, 0xff, 0x10]);
    cpu.load(0x10ff, &[0x34]);
    cpu.load(0x1100, &[0x12]);
    cpu.step().unwrap();
    assert!(cpu.pc == 0x1234);
}

#[test]
fn test_ldx_negative_flag() {
    let mut cpu = CPU::new();
    cpu.load_executable(0x8000, &[0xa2, 0x80, 0x00]);
    cpu.step().unwrap();
    assert!(cpu.reg_x == 0x80);
    assert!(cpu.check_flag(NEGATIVE_FLAG));
    assert!(!cpu.check_flag(ZERO_FLAG));
}

#[test]
fn test_sta_zero_page_x() {
    let mut cpu = CPU::new();
    cpu.load_executable(0x8000, &[0x95, 0xfe, 0x00]);
    cpu.reg_a = 0x77;
    cpu.reg_x = 0x03;
    let cycles = cpu.step().unwrap();
    // 0xFE + 0x03 wraps within the zero page to 0x0001
    assert!(cpu.memory.read(0x0001) == 0x77);
    assert!(cycles == 4);
}

#[test]
fn test_lda_absolute_y_page_cross_cycles() {
    let mut cpu = CPU::new();
    cpu.load_executable(0x8000, &[0xb9, 0xfe, 0x90, 0x00]);
    cpu.load(0x9100, &[0x42]);
    cpu.reg_y = 0x02;
    let cycles = cpu.step().unwrap();
    assert!(cycles == 5);
    assert!(cpu.reg_a == 0x42);
}

#[test]
fn test_lda_indirect_y_page_cross_cycles() {
    let mut cpu = CPU::new();
    cpu.load_executable(0x8000, &[0xb1, 0x04, 0x00]);
    cpu.load(0x0004, &[0xff, 0x12]);
    cpu.load(0x1301, &[0x99]);
    cpu.reg_y = 0x02;
    let cycles = cpu.step().unwrap();
    assert!(cycles == 6);
    assert!(cpu.reg_a == 0x99);
}

#[test]
fn test_match_opcode_table_entries() {
    assert!(matches!(
        match_opcode(0xa9),
        Some((Op::Lda, AddrMode::Immediate, 2))
    ));
    assert!(matches!(
        match_opcode(0x00),
        Some((Op::Brk, AddrMode::Implied, 7))
    ));
    assert!(matches!(
        match_opcode(0x6c),
        Some((Op::Jmp, AddrMode::Indirect, 5))
    ));
    assert!(matches!(match_opcode(0xff), None));
    assert!(matches!(match_opcode(0x02), None));
}

#[test]
fn test_addr_mode_sizes() {
    assert!(AddrMode::Implied.get_size() == 0);
    assert!(AddrMode::Immediate.get_size() == 1);
    assert!(AddrMode::Relative.get_size() == 1);
    assert!(AddrMode::ZeroPage.get_size() == 1);
    assert!(AddrMode::ZeroPageX.get_size() == 1);
    assert!(AddrMode::ZeroPageY.get_size() == 1);
    assert!(AddrMode::IndirectX.get_size() == 1);
    assert!(AddrMode::IndirectY.get_size() == 1);
    assert!(AddrMode::Absolute.get_size() == 2);
    assert!(AddrMode::AbsoluteX.get_size() == 2);
    assert!(AddrMode::AbsoluteY.get_size() == 2);
    assert!(AddrMode::Indirect.get_size() == 2);
}

#[test]
fn test_flag_helpers_round_trip() {
    let mut cpu = CPU::new();
    assert!(!cpu.check_flag(ZERO_FLAG));
    cpu.set_flag(ZERO_FLAG);
    assert!(cpu.check_flag(ZERO_FLAG));
    cpu.clear_flag(ZERO_FLAG);
    assert!(!cpu.check_flag(ZERO_FLAG));
    // undefined bits round-trip through set and clear as well
    assert!(cpu.check_flag(BREAK_FLAG));
    cpu.clear_flag(BREAK_FLAG);
    assert!(!cpu.check_flag(BREAK_FLAG));
    cpu.set_flag(BREAK_FLAG);
    assert!(cpu.check_flag(BREAK_FLAG));
}

#[test]
fn test_cpx_immediate_and_zero_page() {
    let mut cpu = CPU::new();
    cpu.reg_x = 0x10;
    cpu.load_executable(0x8000, &[0xe0, 0x10, 0x00]);
    cpu.run().unwrap();
    assert!(cpu.check_flag(ZERO_FLAG));
    let mut cpu = CPU::new();
    cpu.reg_x = 0x10;
    cpu.load(0x0040, &[0x20]);
    cpu.load_executable(0x8000, &[0xe4, 0x40, 0x00]);
    cpu.run().unwrap();
    assert!(!cpu.check_flag(CARRY_FLAG));
}
