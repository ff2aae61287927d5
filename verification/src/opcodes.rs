//! The opcode dispatch table and one handler per instruction mnemonic.
//!
//! Every table entry matches the published hardware encoding for its
//! mnemonic and addressing-mode pair, including the documented base cycle
//! count. Each handler mutates the processor state and returns the number
//! of cycles it charges beyond that base cost.

use vstd::prelude::*;

use crate::cpu::AddrMode;
use crate::cpu::CPU;
use crate::cpu::CpuState;
use crate::cpu::is_page_crossed;
use crate::cpu::mem_word;
use crate::cpu::page_differs;
use crate::flags::CARRY_FLAG;
use crate::flags::NEGATIVE_FLAG;
use crate::flags::OVERFLOW_FLAG;
use crate::flags::ZERO_FLAG;
use crate::flags::assign_flag_spec;
use crate::flags::flag_set;
use crate::flags::lemma_assign_flag;
use crate::flags::lemma_update_zero_negative_preserves;
use crate::flags::lemma_zero_negative_flags;
use crate::flags::update_zero_negative_spec;

verus! {

/// The instruction mnemonics this engine implements; the dispatch table
/// pairs each opcode byte with one of them.
pub enum Op {
    Adc,
    Brk,
    Bne,
    Cpx,
    Dex,
    Inx,
    Jmp,
    Lda,
    Ldx,
    Sta,
    Stx,
    Tax,
}

/// The mnemonics encoded with Implied mode, which carry no operand.
pub open spec fn is_implied_op(op: Op) -> bool {
    match op {
        Op::Brk => true,
        Op::Dex => true,
        Op::Inx => true,
        Op::Tax => true,
        _ => false,
    }
}

/// The dispatch table as a mapping: the handler mnemonic, addressing mode
/// and base cycle cost for each implemented opcode byte, and `None` for
/// every unsupported byte.
pub open spec fn decode_spec(code: u8) -> Option<(Op, AddrMode, u8)> {
    if code == 0x69 {
        Some((Op::Adc, AddrMode::Immediate, 2))
    } else if code == 0x00 {
        Some((Op::Brk, AddrMode::Implied, 7))
    } else if code == 0xD0 {
        Some((Op::Bne, AddrMode::Relative, 2))
    } else if code == 0xEC {
        Some((Op::Cpx, AddrMode::Absolute, 4))
    } else if code == 0xE0 {
        Some((Op::Cpx, AddrMode::Immediate, 2))
    } else if code == 0xE4 {
        Some((Op::Cpx, AddrMode::ZeroPage, 3))
    } else if code == 0xCA {
        Some((Op::Dex, AddrMode::Implied, 2))
    } else if code == 0xE8 {
        Some((Op::Inx, AddrMode::Implied, 2))
    } else if code == 0x6C {
        Some((Op::Jmp, AddrMode::Indirect, 5))
    } else if code == 0xAD {
        Some((Op::Lda, AddrMode::Absolute, 4))
    } else if code == 0xBD {
        Some((Op::Lda, AddrMode::AbsoluteX, 4))
    } else if code == 0xB9 {
        Some((Op::Lda, AddrMode::AbsoluteY, 4))
    } else if code == 0xA9 {
        Some((Op::Lda, AddrMode::Immediate, 2))
    } else if code == 0xA1 {
        Some((Op::Lda, AddrMode::IndirectX, 6))
    } else if code == 0xB1 {
        Some((Op::Lda, AddrMode::IndirectY, 5))
    } else if code == 0xA5 {
        Some((Op::Lda, AddrMode::ZeroPage, 3))
    } else if code == 0xB5 {
        Some((Op::Lda, AddrMode::ZeroPageX, 4))
    } else if code == 0xAE {
        Some((Op::Ldx, AddrMode::Absolute, 4))
    } else if code == 0xBE {
        Some((Op::Ldx, AddrMode::AbsoluteY, 4))
    } else if code == 0xA2 {
        Some((Op::Ldx, AddrMode::Immediate, 2))
    } else if code == 0xA6 {
        Some((Op::Ldx, AddrMode::ZeroPage, 3))
    } else if code == 0xB6 {
        Some((Op::Ldx, AddrMode::ZeroPageY, 4))
    } else if code == 0x8D {
        Some((Op::Sta, AddrMode::Absolute, 4))
    } else if code == 0x9D {
        Some((Op::Sta, AddrMode::AbsoluteX, 5))
    } else if code == 0x99 {
        Some((Op::Sta, AddrMode::AbsoluteY, 5))
    } else if code == 0x85 {
        Some((Op::Sta, AddrMode::ZeroPage, 3))
    } else if code == 0x95 {
        Some((Op::Sta, AddrMode::ZeroPageX, 4))
    } else if code == 0x8E {
        Some((Op::Stx, AddrMode::Absolute, 4))
    } else if code == 0x86 {
        Some((Op::Stx, AddrMode::ZeroPage, 3))
    } else if code == 0x96 {
        Some((Op::Stx, AddrMode::ZeroPageY, 4))
    } else if code == 0xAA {
        Some((Op::Tax, AddrMode::Implied, 2))
    } else {
        None
    }
}

/// Look an opcode byte up in the dispatch table. `None` marks an
/// unsupported opcode, the fatal decode error.
pub fn match_opcode(code: u8) -> (r: Option<(Op, AddrMode, u8)>)
    ensures
        r == decode_spec(code),
        r matches Some(entry) ==> entry.2 <= 7 && (is_implied_op(entry.0) <==> entry.1
            is Implied),
{
    match code {
        0x69 => Some((Op::Adc, AddrMode::Immediate, 2)),
        0x00 => Some((Op::Brk, AddrMode::Implied, 7)),
        0xD0 => Some((Op::Bne, AddrMode::Relative, 2)),
        0xEC => Some((Op::Cpx, AddrMode::Absolute, 4)),
        0xE0 => Some((Op::Cpx, AddrMode::Immediate, 2)),
        0xE4 => Some((Op::Cpx, AddrMode::ZeroPage, 3)),
        0xCA => Some((Op::Dex, AddrMode::Implied, 2)),
        0xE8 => Some((Op::Inx, AddrMode::Implied, 2)),
        0x6C => Some((Op::Jmp, AddrMode::Indirect, 5)),
        0xAD => Some((Op::Lda, AddrMode::Absolute, 4)),
        0xBD => Some((Op::Lda, AddrMode::AbsoluteX, 4)),
        0xB9 => Some((Op::Lda, AddrMode::AbsoluteY, 4)),
        0xA9 => Some((Op::Lda, AddrMode::Immediate, 2)),
        0xA1 => Some((Op::Lda, AddrMode::IndirectX, 6)),
        0xB1 => Some((Op::Lda, AddrMode::IndirectY, 5)),
        0xA5 => Some((Op::Lda, AddrMode::ZeroPage, 3)),
        0xB5 => Some((Op::Lda, AddrMode::ZeroPageX, 4)),
        0xAE => Some((Op::Ldx, AddrMode::Absolute, 4)),
        0xBE => Some((Op::Ldx, AddrMode::AbsoluteY, 4)),
        0xA2 => Some((Op::Ldx, AddrMode::Immediate, 2)),
        0xA6 => Some((Op::Ldx, AddrMode::ZeroPage, 3)),
        0xB6 => Some((Op::Ldx, AddrMode::ZeroPageY, 4)),
        0x8D => Some((Op::Sta, AddrMode::Absolute, 4)),
        0x9D => Some((Op::Sta, AddrMode::AbsoluteX, 5)),
        0x99 => Some((Op::Sta, AddrMode::AbsoluteY, 5)),
        0x85 => Some((Op::Sta, AddrMode::ZeroPage, 3)),
        0x95 => Some((Op::Sta, AddrMode::ZeroPageX, 4)),
        0x8E => Some((Op::Stx, AddrMode::Absolute, 4)),
        0x86 => Some((Op::Stx, AddrMode::ZeroPage, 3)),
        0x96 => Some((Op::Stx, AddrMode::ZeroPageY, 4)),
        0xAA => Some((Op::Tax, AddrMode::Implied, 2)),
        _ => None,
    }
}

/// One extra cycle when the last addressing resolution crossed a page.
pub open spec fn page_cross_extra(s: CpuState) -> u8 {
    if s.page_crossed {
        1
    } else {
        0
    }
}

/// The 8-bit sum of accumulator and operand, plus one more when the
/// incoming Carry flag was set, with wraparound.
pub open spec fn adc_result(a: u8, operand: u8, carry_in: bool) -> u8 {
    if carry_in {
        a.wrapping_add(operand).wrapping_add(1)
    } else {
        a.wrapping_add(operand)
    }
}

/// Carry-out of the 8-bit addition of accumulator and operand.
pub open spec fn adc_carry_out(a: u8, operand: u8) -> bool {
    a + operand > 0xFF
}

/// The signed-overflow test: overflow occurs iff operand and original
/// accumulator both differ in sign bit from the result.
pub open spec fn adc_overflow(a: u8, operand: u8, result: u8) -> bool {
    (operand ^ result) & (a ^ result) & 0x80 != 0
}

/// State after add-with-carry of the byte at `addr`.
pub open spec fn adc_spec(s: CpuState, addr: u16) -> CpuState {
    let operand = s.mem[addr as int];
    let result = adc_result(s.a, operand, flag_set(s.status, CARRY_FLAG));
    let st_carry = assign_flag_spec(s.status, CARRY_FLAG, adc_carry_out(s.a, operand));
    let st_overflow = assign_flag_spec(st_carry, OVERFLOW_FLAG, adc_overflow(s.a, operand, result));
    CpuState { a: result, status: update_zero_negative_spec(st_overflow, result), ..s }
}

/// State after the halt instruction: the run loop stops.
pub open spec fn brk_spec(s: CpuState) -> CpuState {
    CpuState { running: false, ..s }
}

/// The branch target: the program counter displaced by the operand byte
/// read as a signed 8-bit offset, with 16-bit wraparound.
pub open spec fn branch_target(pc: u16, offset: u8) -> u16 {
    if offset >= 0x80 {
        pc.wrapping_add(offset as u16).wrapping_sub(0x100)
    } else {
        pc.wrapping_add(offset as u16)
    }
}

/// State and extra cycles of branch-if-not-equal: taken iff the Zero flag
/// is clear; a taken branch costs 1 extra cycle, or 2 when the
/// displacement crosses a page boundary.
pub open spec fn bne_spec(s: CpuState, addr: u16) -> (CpuState, u8) {
    if flag_set(s.status, ZERO_FLAG) {
        (s, 0)
    } else {
        let target = branch_target(s.pc, s.mem[addr as int]);
        (
            CpuState { pc: target, ..s },
            if page_differs(s.pc, target) {
                2
            } else {
                1
            },
        )
    }
}

/// The status byte after a compare: Carry is assigned `reg >= operand`
/// (unsigned), then Zero and Negative are assigned from the 8-bit wrapped
/// difference.
pub open spec fn compare_status(status: u8, reg: u8, operand: u8) -> u8 {
    update_zero_negative_spec(
        assign_flag_spec(status, CARRY_FLAG, reg >= operand),
        reg.wrapping_sub(operand),
    )
}

/// State after comparing register X with the byte at `addr`.
pub open spec fn cpx_spec(s: CpuState, addr: u16) -> CpuState {
    CpuState { status: compare_status(s.status, s.x, s.mem[addr as int]), ..s }
}

/// State after decrementing register X with 8-bit wraparound.
pub open spec fn dex_spec(s: CpuState) -> CpuState {
    let result = s.x.wrapping_sub(1);
    CpuState { x: result, status: update_zero_negative_spec(s.status, result), ..s }
}

/// State after incrementing register X with 8-bit wraparound.
pub open spec fn inx_spec(s: CpuState) -> CpuState {
    let result = s.x.wrapping_add(1);
    CpuState { x: result, status: update_zero_negative_spec(s.status, result), ..s }
}

/// State after the indirect jump: the program counter becomes the word
/// read at `addr`, the pointer location the resolver produced.
pub open spec fn jmp_spec(s: CpuState, addr: u16) -> CpuState {
    CpuState { pc: mem_word(s.mem, addr), ..s }
}

/// State after loading the accumulator from `addr`.
pub open spec fn lda_spec(s: CpuState, addr: u16) -> CpuState {
    let value = s.mem[addr as int];
    CpuState { a: value, status: update_zero_negative_spec(s.status, value), ..s }
}

/// State after loading register X from `addr`.
pub open spec fn ldx_spec(s: CpuState, addr: u16) -> CpuState {
    let value = s.mem[addr as int];
    CpuState { x: value, status: update_zero_negative_spec(s.status, value), ..s }
}

/// State after storing the accumulator at `addr`; no flag changes.
pub open spec fn sta_spec(s: CpuState, addr: u16) -> CpuState {
    CpuState { mem: s.mem.update(addr as int, s.a), ..s }
}

/// State after storing register X at `addr`; no flag changes.
pub open spec fn stx_spec(s: CpuState, addr: u16) -> CpuState {
    CpuState { mem: s.mem.update(addr as int, s.x), ..s }
}

/// State after copying the accumulator into register X.
pub open spec fn tax_spec(s: CpuState) -> CpuState {
    CpuState { x: s.a, status: update_zero_negative_spec(s.status, s.a), ..s }
}

/// The state transition and extra cycle charge of one handler, given the
/// state at handler entry and the resolved operand address. The Implied
/// mnemonics ignore `addr`.
pub open spec fn apply_op(op: Op, s: CpuState, addr: u16) -> (CpuState, u8) {
    match op {
        Op::Adc => (adc_spec(s, addr), page_cross_extra(s)),
        Op::Brk => (brk_spec(s), 0),
        Op::Bne => bne_spec(s, addr),
        Op::Cpx => (cpx_spec(s, addr), 0),
        Op::Dex => (dex_spec(s), 0),
        Op::Inx => (inx_spec(s), 0),
        Op::Jmp => (jmp_spec(s, addr), 0),
        Op::Lda => (lda_spec(s, addr), page_cross_extra(s)),
        Op::Ldx => (ldx_spec(s, addr), page_cross_extra(s)),
        Op::Sta => (sta_spec(s, addr), 0),
        Op::Stx => (stx_spec(s, addr), 0),
        Op::Tax => (tax_spec(s), 0),
    }
}

/// Law: the compare flags characterize the unsigned order of register and
/// operand. Equality sets Carry and Zero and clears Negative; a greater
/// register sets Carry with Zero clear; a lesser register clears both
/// Carry and Zero; and Negative always reflects the sign bit of the
/// 8-bit wrapped difference.
pub proof fn lemma_compare_flags(status: u8, reg: u8, operand: u8)
    ensures
        flag_set(compare_status(status, reg, operand), CARRY_FLAG) <==> reg >= operand,
        flag_set(compare_status(status, reg, operand), ZERO_FLAG) <==> reg == operand,
        flag_set(compare_status(status, reg, operand), NEGATIVE_FLAG) <==> reg.wrapping_sub(
            operand,
        ) >= 0x80,
        reg == operand ==> flag_set(compare_status(status, reg, operand), CARRY_FLAG) && flag_set(
            compare_status(status, reg, operand),
            ZERO_FLAG,
        ) && !flag_set(compare_status(status, reg, operand), NEGATIVE_FLAG),
        reg > operand ==> flag_set(compare_status(status, reg, operand), CARRY_FLAG) && !flag_set(
            compare_status(status, reg, operand),
            ZERO_FLAG,
        ),
        reg < operand ==> !flag_set(compare_status(status, reg, operand), CARRY_FLAG) && !flag_set(
            compare_status(status, reg, operand),
            ZERO_FLAG,
        ),
{
    let diff = reg.wrapping_sub(operand);
    let st_carry = assign_flag_spec(status, CARRY_FLAG, reg >= operand);
    assert((ZERO_FLAG | NEGATIVE_FLAG) & CARRY_FLAG == 0) by (bit_vector);
    assert(CARRY_FLAG & (ZERO_FLAG | NEGATIVE_FLAG) == 0) by (bit_vector);
    lemma_assign_flag(status, CARRY_FLAG, reg >= operand, ZERO_FLAG | NEGATIVE_FLAG);
    lemma_zero_negative_flags(st_carry, diff);
    lemma_update_zero_negative_preserves(st_carry, diff, CARRY_FLAG);
    assert(diff == 0 <==> reg == operand);
}

/// Law: for the load-register instructions, the Zero flag is set iff the
/// loaded value is 0x00, the Negative flag is set iff bit 7 of the loaded
/// value is 1, and the two are exclusive: 0x00 is never negative. The
/// same holds of the transfer instruction, which loads X from the
/// accumulator.
pub proof fn lemma_load_register_flags(s: CpuState, addr: u16)
    ensures
        flag_set(lda_spec(s, addr).status, ZERO_FLAG) <==> lda_spec(s, addr).a == 0,
        flag_set(lda_spec(s, addr).status, NEGATIVE_FLAG) <==> lda_spec(s, addr).a & 0x80 != 0,
        !(flag_set(lda_spec(s, addr).status, ZERO_FLAG) && flag_set(
            lda_spec(s, addr).status,
            NEGATIVE_FLAG,
        )),
        flag_set(ldx_spec(s, addr).status, ZERO_FLAG) <==> ldx_spec(s, addr).x == 0,
        flag_set(ldx_spec(s, addr).status, NEGATIVE_FLAG) <==> ldx_spec(s, addr).x & 0x80 != 0,
        !(flag_set(ldx_spec(s, addr).status, ZERO_FLAG) && flag_set(
            ldx_spec(s, addr).status,
            NEGATIVE_FLAG,
        )),
        flag_set(tax_spec(s).status, ZERO_FLAG) <==> tax_spec(s).x == 0,
        flag_set(tax_spec(s).status, NEGATIVE_FLAG) <==> tax_spec(s).x & 0x80 != 0,
        !(flag_set(tax_spec(s).status, ZERO_FLAG) && flag_set(
            tax_spec(s).status,
            NEGATIVE_FLAG,
        )),
{
    lemma_zero_negative_flags(s.status, s.mem[addr as int]);
    lemma_zero_negative_flags(s.status, s.a);
}

/// Add-with-carry: add the byte at `addr` and the incoming Carry to the
/// accumulator with 8-bit wraparound; Carry is assigned the carry-out of
/// the accumulator-plus-operand addition, Overflow the signed-overflow
/// test, then Zero and Negative follow the new accumulator. Charges one
/// extra cycle on a page crossing.
pub(crate) fn adc(cpu: &mut CPU, addr: u16) -> (extra: u8)
    requires
        old(cpu).wf(),
    ensures
        final(cpu).wf(),
        final(cpu)@ == adc_spec(old(cpu)@, addr),
        extra == page_cross_extra(old(cpu)@),
{
    let operand = cpu.memory.read(addr);
    let a = cpu.reg_a;
    let mut result = a.wrapping_add(operand);
    if cpu.check_flag(CARRY_FLAG) {
        result = result.wrapping_add(1);
    }
    if a as u16 + operand as u16 > 0xFF {
        cpu.set_flag(CARRY_FLAG);
    } else {
        cpu.clear_flag(CARRY_FLAG);
    }
    if (operand ^ result) & (a ^ result) & 0x80 != 0 {
        cpu.set_flag(OVERFLOW_FLAG);
    } else {
        cpu.clear_flag(OVERFLOW_FLAG);
    }
    cpu.reg_a = result;
    cpu.update_zero_negative_flags(result);
    proof {
        assert(cpu@ =~= adc_spec(old(cpu)@, addr));
    }
    if cpu.addr_page_crossed {
        1
    } else {
        0
    }
}

/// Halt: clear the continue-running state; no operand, no extra cycles.
pub(crate) fn brk(cpu: &mut CPU) -> (extra: u8)
    requires
        old(cpu).wf(),
    ensures
        final(cpu).wf(),
        final(cpu)@ == brk_spec(old(cpu)@),
        extra == 0u8,
{
    cpu.running = false;
    proof {
        assert(cpu@ =~= brk_spec(old(cpu)@));
    }
    0
}

/// Branch-if-not-equal: when the Zero flag is clear, displace the program
/// counter by the signed operand byte at `addr` and charge 1 extra cycle,
/// or 2 when the displacement crosses a page boundary; otherwise fall
/// through with no extra cost.
pub(crate) fn bne(cpu: &mut CPU, addr: u16) -> (extra: u8)
    requires
        old(cpu).wf(),
    ensures
        final(cpu).wf(),
        final(cpu)@ == bne_spec(old(cpu)@, addr).0,
        extra == bne_spec(old(cpu)@, addr).1,
{
    if !cpu.check_flag(ZERO_FLAG) {
        let offset = cpu.memory.read(addr);
        let before = cpu.pc;
        let target = if offset >= 0x80 {
            before.wrapping_add(offset as u16).wrapping_sub(0x100)
        } else {
            before.wrapping_add(offset as u16)
        };
        cpu.pc = target;
        proof {
            assert(cpu@ =~= bne_spec(old(cpu)@, addr).0);
        }
        if is_page_crossed(before, target) {
            2
        } else {
            1
        }
    } else {
        0
    }
}

/// Compare register X with the byte at `addr`: Carry is assigned
/// `X >= operand` (unsigned), Zero and Negative follow the 8-bit wrapped
/// difference; the register itself is untouched.
pub(crate) fn cpx(cpu: &mut CPU, addr: u16) -> (extra: u8)
    requires
        old(cpu).wf(),
    ensures
        final(cpu).wf(),
        final(cpu)@ == cpx_spec(old(cpu)@, addr),
        extra == 0u8,
{
    let value = cpu.memory.read(addr);
    let result = cpu.reg_x.wrapping_sub(value);
    if cpu.reg_x >= value {
        cpu.set_flag(CARRY_FLAG);
    } else {
        cpu.clear_flag(CARRY_FLAG);
    }
    cpu.update_zero_negative_flags(result);
    proof {
        assert(cpu@ =~= cpx_spec(old(cpu)@, addr));
    }
    0
}

/// Decrement register X with 8-bit wraparound; Zero and Negative follow
/// the result.
pub(crate) fn dex(cpu: &mut CPU) -> (extra: u8)
    requires
        old(cpu).wf(),
    ensures
        final(cpu).wf(),
        final(cpu)@ == dex_spec(old(cpu)@),
        extra == 0u8,
{
    cpu.reg_x = cpu.reg_x.wrapping_sub(1);
    let result = cpu.reg_x;
    cpu.update_zero_negative_flags(result);
    proof {
        assert(cpu@ =~= dex_spec(old(cpu)@));
    }
    0
}

/// Increment register X with 8-bit wraparound; Zero and Negative follow
/// the result.
pub(crate) fn inx(cpu: &mut CPU) -> (extra: u8)
    requires
        old(cpu).wf(),
    ensures
        final(cpu).wf(),
        final(cpu)@ == inx_spec(old(cpu)@),
        extra == 0u8,
{
    cpu.reg_x = cpu.reg_x.wrapping_add(1);
    let result = cpu.reg_x;
    cpu.update_zero_negative_flags(result);
    proof {
        assert(cpu@ =~= inx_spec(old(cpu)@));
    }
    0
}

/// Unconditional jump through the pointer at `addr`: the new program
/// counter is the little-endian word read there. A pointer whose low byte
/// is 0xFF reads its high byte from the following address, not from the
/// start of the same page; this deviates from the original chip's
/// indirect-jump page-wrap quirk.
pub(crate) fn jmp(cpu: &mut CPU, addr: u16) -> (extra: u8)
    requires
        old(cpu).wf(),
    ensures
        final(cpu).wf(),
        final(cpu)@ == jmp_spec(old(cpu)@, addr),
        extra == 0u8,
{
    cpu.pc = cpu.memory.read_u16(addr);
    proof {
        assert(cpu@ =~= jmp_spec(old(cpu)@, addr));
    }
    0
}

/// Load the accumulator from `addr`; Zero and Negative follow the loaded
/// value. Charges one extra cycle on a page crossing.
pub(crate) fn lda(cpu: &mut CPU, addr: u16) -> (extra: u8)
    requires
        old(cpu).wf(),
    ensures
        final(cpu).wf(),
        final(cpu)@ == lda_spec(old(cpu)@, addr),
        extra == page_cross_extra(old(cpu)@),
{
    cpu.reg_a = cpu.memory.read(addr);
    let result = cpu.reg_a;
    cpu.update_zero_negative_flags(result);
    proof {
        assert(cpu@ =~= lda_spec(old(cpu)@, addr));
    }
    if cpu.addr_page_crossed {
        1
    } else {
        0
    }
}

/// Load register X from `addr`; Zero and Negative follow the loaded
/// value. Charges one extra cycle on a page crossing.
pub(crate) fn ldx(cpu: &mut CPU, addr: u16) -> (extra: u8)
    requires
        old(cpu).wf(),
    ensures
        final(cpu).wf(),
        final(cpu)@ == ldx_spec(old(cpu)@, addr),
        extra == page_cross_extra(old(cpu)@),
{
    cpu.reg_x = cpu.memory.read(addr);
    let result = cpu.reg_x;
    cpu.update_zero_negative_flags(result);
    proof {
        assert(cpu@ =~= ldx_spec(old(cpu)@, addr));
    }
    if cpu.addr_page_crossed {
        1
    } else {
        0
    }
}

/// Store the accumulator at `addr`; no flag changes, no extra cycles.
pub(crate) fn sta(cpu: &mut CPU, addr: u16) -> (extra: u8)
    requires
        old(cpu).wf(),
    ensures
        final(cpu).wf(),
        final(cpu)@ == sta_spec(old(cpu)@, addr),
        extra == 0u8,
{
    let value = cpu.reg_a;
    cpu.memory.write(addr, value);
    proof {
        assert(cpu@ =~= sta_spec(old(cpu)@, addr));
    }
    0
}

/// Store register X at `addr`; no flag changes, no extra cycles.
pub(crate) fn stx(cpu: &mut CPU, addr: u16) -> (extra: u8)
    requires
        old(cpu).wf(),
    ensures
        final(cpu).wf(),
        final(cpu)@ == stx_spec(old(cpu)@, addr),
        extra == 0u8,
{
    let value = cpu.reg_x;
    cpu.memory.write(addr, value);
    proof {
        assert(cpu@ =~= stx_spec(old(cpu)@, addr));
    }
    0
}

/// Copy the accumulator into register X; Zero and Negative follow the
/// copied value.
pub(crate) fn tax(cpu: &mut CPU) -> (extra: u8)
    requires
        old(cpu).wf(),
    ensures
        final(cpu).wf(),
        final(cpu)@ == tax_spec(old(cpu)@),
        extra == 0u8,
{
    cpu.reg_x = cpu.reg_a;
    let result = cpu.reg_x;
    cpu.update_zero_negative_flags(result);
    proof {
        assert(cpu@ =~= tax_spec(old(cpu)@));
    }
    0
}

} // verus!
