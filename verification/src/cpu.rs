//! The processor core: flat memory, register and flag state, the
//! addressing-mode resolver, and the fetch-decode-execute loop.

use vstd::prelude::*;

use crate::flags::NEGATIVE_FLAG;
use crate::flags::ZERO_FLAG;
use crate::flags::clear_flag_spec;
use crate::flags::flag_set;
use crate::flags::set_flag_spec;
use crate::flags::update_zero_negative_spec;
use crate::opcodes::Op;
use crate::opcodes::adc;
use crate::opcodes::apply_op;
use crate::opcodes::bne;
use crate::opcodes::brk;
use crate::opcodes::cpx;
use crate::opcodes::decode_spec;
use crate::opcodes::dex;
use crate::opcodes::inx;
use crate::opcodes::is_implied_op;
use crate::opcodes::jmp;
use crate::opcodes::lda;
use crate::opcodes::ldx;
use crate::opcodes::match_opcode;
use crate::opcodes::sta;
use crate::opcodes::stx;
use crate::opcodes::tax;

verus! {

/// Number of addressable bytes: the full 16-bit address space,
/// 0x0000 through 0xFFFF inclusive.
pub const MEMORY_SIZE: usize = 0x10000;

/// The mathematical state of one processor: every register, the two
/// emulator bookkeeping bits, and the memory contents as a byte sequence.
/// All contracts of this crate are stated over this state.
#[verifier::ext_equal]
pub ghost struct CpuState {
    /// The fetch-decode-execute loop continues while this holds; the halt
    /// instruction clears it.
    pub running: bool,
    /// Whether the last addressing-mode resolution crossed a page
    /// boundary; consumed by the handlers that charge an extra cycle.
    pub page_crossed: bool,
    /// Accumulator.
    pub a: u8,
    /// Index register X.
    pub x: u8,
    /// Index register Y.
    pub y: u8,
    /// Program counter.
    pub pc: u16,
    /// Stack pointer.
    pub sp: u8,
    /// Status register bitfield.
    pub status: u8,
    /// Memory contents, one byte per address.
    pub mem: Seq<u8>,
}

/// The two fatal error kinds: an opcode byte outside the dispatch table,
/// and an Implied-mode instruction asking the resolver for an operand
/// address.
#[derive(Debug, Clone, Copy, PartialEq, Eq, Structural)]
pub enum CpuError {
    UnsupportedOpcode(u8),
    InvalidAddressing,
}

/// Flat byte-addressable storage covering the full 16-bit address space.
pub struct Memory {
    state: Vec<u8>,
}

impl View for Memory {
    type V = Seq<u8>;

    closed spec fn view(&self) -> Seq<u8> {
        self.state@
    }
}

/// The 16-bit word whose little-endian bytes are `lo` and `hi`.
pub open spec fn word_from_bytes(lo: u8, hi: u8) -> u16 {
    (lo + hi * 0x100) as u16
}

/// The little-endian word stored at `addr`: the low byte at `addr`, the
/// high byte at the next address, wrapping around the top of the address
/// space.
pub open spec fn mem_word(m: Seq<u8>, addr: u16) -> u16 {
    word_from_bytes(m[addr as int], m[addr.wrapping_add(1) as int])
}

/// Low byte of a 16-bit word.
pub open spec fn word_lo(value: u16) -> u8 {
    (value % 0x100) as u8
}

/// High byte of a 16-bit word.
pub open spec fn word_hi(value: u16) -> u8 {
    (value / 0x100) as u8
}

/// The memory after a little-endian word store at `addr`: the low byte
/// lands at `addr`, the high byte at the next address, wrapping around
/// the top of the address space.
pub open spec fn mem_store_word(m: Seq<u8>, addr: u16, value: u16) -> Seq<u8> {
    m.update(addr as int, word_lo(value)).update(addr.wrapping_add(1) as int, word_hi(value))
}

/// The memory after a bulk load of `bytes` starting at `addr`.
pub open spec fn mem_load(m: Seq<u8>, addr: u16, bytes: Seq<u8>) -> Seq<u8> {
    Seq::new(
        m.len(),
        |i: int|
            if addr <= i < addr + bytes.len() {
                bytes[i - addr]
            } else {
                m[i]
            },
    )
}

/// Law: a bulk load followed by raw memory reads returns the exact bytes
/// written, for any range fully inside the address space, and every
/// address outside the range keeps its previous contents.
pub proof fn lemma_load_round_trip(m: Seq<u8>, addr: u16, bytes: Seq<u8>)
    requires
        m.len() == MEMORY_SIZE,
        addr + bytes.len() <= MEMORY_SIZE,
    ensures
        mem_load(m, addr, bytes).len() == m.len(),
        forall|i: int|
            0 <= i < bytes.len() ==> #[trigger] mem_load(m, addr, bytes)[addr + i] == bytes[i],
        forall|j: int|
            0 <= j < m.len() && !(addr <= j < addr + bytes.len()) ==> #[trigger] mem_load(
                m,
                addr,
                bytes,
            )[j] == m[j],
{
}

impl Memory {
    /// The memory is well formed when it covers the whole address space.
    pub open spec fn wf(&self) -> bool {
        self@.len() == MEMORY_SIZE
    }

    /// Zero-filled storage for the full address space.
    pub fn new() -> (m: Memory)
        ensures
            m.wf(),
            forall|i: int| 0 <= i < MEMORY_SIZE ==> m@[i] == 0u8,
    {
        let mut state: Vec<u8> = Vec::new();
        let mut i: usize = 0;
        while i < MEMORY_SIZE
            invariant
                i == state@.len(),
                i <= MEMORY_SIZE,
                forall|j: int| 0 <= j < i ==> state@[j] == 0u8,
            decreases MEMORY_SIZE - i,
        {
            state.push(0);
            i = i + 1;
        }
        Memory { state }
    }

    /// Read the byte stored at `addr`.
    pub fn read(&self, addr: u16) -> (r: u8)
        requires
            self.wf(),
        ensures
            r == self@[addr as int],
    {
        self.state[addr as usize]
    }

    /// Read the little-endian 16-bit word at `addr`: low byte first. A
    /// read at the topmost address takes its high byte from address
    /// 0x0000, wrapping with the 16-bit address bus.
    pub fn read_u16(&self, addr: u16) -> (r: u16)
        requires
            self.wf(),
        ensures
            r == mem_word(self@, addr),
    {
        let lo = self.read(addr);
        let hi = self.read(addr.wrapping_add(1));
        lo as u16 + hi as u16 * 0x100
    }

    /// Write one byte at `addr`.
    pub fn write(&mut self, addr: u16, value: u8)
        requires
            old(self).wf(),
        ensures
            final(self).wf(),
            final(self)@ == old(self)@.update(addr as int, value),
    {
        self.state[addr as usize] = value;
    }

    /// Write the little-endian 16-bit word at `addr`: low byte first. A
    /// write at the topmost address puts its high byte at address 0x0000,
    /// wrapping with the 16-bit address bus. Reading the word back from
    /// the same address returns `value`.
    pub fn write_u16(&mut self, addr: u16, value: u16)
        requires
            old(self).wf(),
        ensures
            final(self).wf(),
            final(self)@ == mem_store_word(old(self)@, addr, value),
            mem_word(final(self)@, addr) == value,
    {
        let lo = (value % 0x100) as u8;
        let hi = (value / 0x100) as u8;
        self.write(addr, lo);
        self.write(addr.wrapping_add(1), hi);
    }

    /// Bulk-write `bytes` starting at `addr`; the range must lie fully
    /// inside the address space.
    pub fn load(&mut self, addr: u16, bytes: &[u8])
        requires
            old(self).wf(),
            addr + bytes@.len() <= MEMORY_SIZE,
        ensures
            final(self).wf(),
            final(self)@ == mem_load(old(self)@, addr, bytes@),
    {
        let mut i: usize = 0;
        while i < bytes.len()
            invariant
                self.wf(),
                i <= bytes@.len(),
                addr + bytes@.len() <= MEMORY_SIZE,
                forall|j: int| 0 <= j < i ==> self@[addr + j] == bytes@[j],
                forall|j: int|
                    0 <= j < MEMORY_SIZE && !(addr <= j < addr + i) ==> self@[j] == old(self)@[j],
            decreases bytes@.len() - i,
        {
            self.state[addr as usize + i] = bytes[i];
            i = i + 1;
        }
        proof {
            assert(final(self)@ =~= mem_load(old(self)@, addr, bytes@));
        }
    }
}

/// How an instruction's operand address is computed, together with the
/// fixed encoding size each variant adds after the opcode byte.
pub enum AddrMode {
    Absolute,
    AbsoluteX,
    AbsoluteY,
    Implied,
    Immediate,
    Indirect,
    IndirectX,
    IndirectY,
    Relative,
    ZeroPage,
    ZeroPageX,
    ZeroPageY,
}

impl AddrMode {
    /// Operand bytes this mode adds to the instruction encoding.
    pub open spec fn size_spec(&self) -> u16 {
        match self {
            AddrMode::Absolute => 2,
            AddrMode::AbsoluteX => 2,
            AddrMode::AbsoluteY => 2,
            AddrMode::Implied => 0,
            AddrMode::Immediate => 1,
            AddrMode::Indirect => 2,
            AddrMode::IndirectX => 1,
            AddrMode::IndirectY => 1,
            AddrMode::Relative => 1,
            AddrMode::ZeroPage => 1,
            AddrMode::ZeroPageX => 1,
            AddrMode::ZeroPageY => 1,
        }
    }

    /// Number of operand bytes the program counter advances past.
    pub fn get_size(&self) -> (r: u16)
        ensures
            r == self.size_spec(),
    {
        match self {
            AddrMode::Absolute => 2,
            AddrMode::AbsoluteX => 2,
            AddrMode::AbsoluteY => 2,
            AddrMode::Implied => 0,
            AddrMode::Immediate => 1,
            AddrMode::Indirect => 2,
            AddrMode::IndirectX => 1,
            AddrMode::IndirectY => 1,
            AddrMode::Relative => 1,
            AddrMode::ZeroPage => 1,
            AddrMode::ZeroPageX => 1,
            AddrMode::ZeroPageY => 1,
        }
    }
}

/// Whether two addresses lie in different 256-byte pages, that is, their
/// high bytes differ.
pub open spec fn page_differs(a: u16, b: u16) -> bool {
    a / 0x100 != b / 0x100
}

/// Page-crossing test consumed by the cycle accounting.
pub(crate) fn is_page_crossed(a: u16, b: u16) -> (r: bool)
    ensures
        r == page_differs(a, b),
{
    a / 0x100 != b / 0x100
}

/// The effective operand address for `mode`, with the program counter of
/// `s` already pointing at the first operand byte. Implied mode resolves
/// no address; its value here is arbitrary and never consumed.
pub open spec fn resolved_addr(s: CpuState, mode: AddrMode) -> u16 {
    match mode {
        AddrMode::Absolute => mem_word(s.mem, s.pc),
        AddrMode::AbsoluteX => mem_word(s.mem, s.pc).wrapping_add(s.x as u16),
        AddrMode::AbsoluteY => mem_word(s.mem, s.pc).wrapping_add(s.y as u16),
        AddrMode::Implied => 0,
        AddrMode::Immediate => s.pc,
        AddrMode::Indirect => mem_word(s.mem, s.pc),
        AddrMode::IndirectX => mem_word(s.mem, s.mem[s.pc as int].wrapping_add(s.x) as u16),
        AddrMode::IndirectY => mem_word(s.mem, s.mem[s.pc as int] as u16).wrapping_add(
            s.y as u16,
        ),
        AddrMode::Relative => s.pc,
        AddrMode::ZeroPage => s.mem[s.pc as int] as u16,
        AddrMode::ZeroPageX => s.mem[s.pc as int].wrapping_add(s.x) as u16,
        AddrMode::ZeroPageY => s.mem[s.pc as int].wrapping_add(s.y) as u16,
    }
}

/// Whether resolving `mode` crossed a page boundary: for the indexed
/// modes that charge a penalty, the high byte of the indexed address
/// differs from the high byte of the base it was computed from.
pub open spec fn resolved_page_cross(s: CpuState, mode: AddrMode) -> bool {
    match mode {
        AddrMode::AbsoluteX => page_differs(mem_word(s.mem, s.pc), resolved_addr(s, mode)),
        AddrMode::AbsoluteY => page_differs(mem_word(s.mem, s.pc), resolved_addr(s, mode)),
        AddrMode::IndirectY => page_differs(
            mem_word(s.mem, s.mem[s.pc as int] as u16),
            resolved_addr(s, mode),
        ),
        _ => false,
    }
}

/// Law: zero-page indexed addressing wraps within the zero page. The
/// operand byte plus the index register is truncated to 8 bits before it
/// is widened, so the effective address is their sum modulo 0x100 and
/// never carries into the high byte.
pub proof fn lemma_zero_page_indexed_wraps(s: CpuState)
    ensures
        resolved_addr(s, AddrMode::ZeroPageX) == (s.mem[s.pc as int] + s.x) % 0x100,
        resolved_addr(s, AddrMode::ZeroPageX) < 0x100,
        resolved_addr(s, AddrMode::ZeroPageY) == (s.mem[s.pc as int] + s.y) % 0x100,
        resolved_addr(s, AddrMode::ZeroPageY) < 0x100,
{
    let b = s.mem[s.pc as int];
    let x = s.x;
    let y = s.y;
    assert(b.wrapping_add(x) == (b + x) % 0x100) by (bit_vector);
    assert(b.wrapping_add(y) == (b + y) % 0x100) by (bit_vector);
}

/// The processor: registers, status flags, the two emulator bookkeeping
/// bits, and its exclusively owned memory.
pub struct CPU {
    /// Emulator-only flag: the run loop continues while it holds; the
    /// halt instruction clears it.
    pub running: bool,
    /// Emulator-only flag set when addressing crossed a page boundary,
    /// which may cost an extra cycle.
    pub addr_page_crossed: bool,
    /// Accumulator.
    pub reg_a: u8,
    /// Index register X.
    pub reg_x: u8,
    /// Index register Y.
    pub reg_y: u8,
    /// Program counter.
    pub pc: u16,
    /// Stack pointer.
    pub sp: u8,
    /// Status register.
    pub status: u8,
    /// The 64 KiB address space this processor owns.
    pub memory: Memory,
}

impl View for CPU {
    type V = CpuState;

    open spec fn view(&self) -> CpuState {
        CpuState {
            running: self.running,
            page_crossed: self.addr_page_crossed,
            a: self.reg_a,
            x: self.reg_x,
            y: self.reg_y,
            pc: self.pc,
            sp: self.sp,
            status: self.status,
            mem: self.memory@,
        }
    }
}

impl CPU {
    /// The processor is well formed when its memory covers the whole
    /// address space.
    pub open spec fn wf(&self) -> bool {
        self.memory.wf()
    }

    /// Power-on initialization: registers and program counter zero, the
    /// stack pointer at 0xFF per hardware convention, the conventionally
    /// set Break and Unused status bits, memory zero-filled, and the run
    /// loop not yet marked runnable.
    pub fn new() -> (cpu: CPU)
        ensures
            cpu.wf(),
            !cpu@.running,
            !cpu@.page_crossed,
            cpu@.a == 0u8,
            cpu@.x == 0u8,
            cpu@.y == 0u8,
            cpu@.pc == 0u16,
            cpu@.sp == 0xFFu8,
            cpu@.status == crate::flags::BREAK_FLAG | crate::flags::UNUSED_FLAG,
            forall|i: int| 0 <= i < MEMORY_SIZE ==> cpu@.mem[i] == 0u8,
    {
        CPU {
            running: false,
            addr_page_crossed: false,
            reg_a: 0,
            reg_x: 0,
            reg_y: 0,
            pc: 0,
            sp: 0xFF,
            status: crate::flags::BREAK_FLAG | crate::flags::UNUSED_FLAG,
            memory: Memory::new(),
        }
    }

    /// Bulk-write `bytes` into memory starting at `addr`, touching no
    /// control state; used to seed operand data and pointer tables.
    pub fn load(&mut self, addr: u16, bytes: &[u8])
        requires
            old(self).wf(),
            addr + bytes@.len() <= MEMORY_SIZE,
        ensures
            final(self).wf(),
            final(self)@ == (CpuState {
                mem: mem_load(old(self)@.mem, addr, bytes@),
                ..old(self)@
            }),
    {
        self.memory.load(addr, bytes);
    }

    /// Install a program image: bulk-write `bytes` at `addr`, set the
    /// program counter to its start, and mark the processor runnable.
    pub fn load_executable(&mut self, addr: u16, bytes: &[u8])
        requires
            old(self).wf(),
            addr + bytes@.len() <= MEMORY_SIZE,
        ensures
            final(self).wf(),
            final(self)@ == (CpuState {
                mem: mem_load(old(self)@.mem, addr, bytes@),
                pc: addr,
                running: true,
                ..old(self)@
            }),
    {
        self.load(addr, bytes);
        self.pc = addr;
        self.running = true;
    }

    /// True when every bit of `flag` is set in the status register.
    pub fn check_flag(&self, flag: u8) -> (r: bool)
        ensures
            r == flag_set(self@.status, flag),
    {
        self.status & flag != 0
    }

    /// Switch the bits of `flag` on in the status register.
    pub fn set_flag(&mut self, flag: u8)
        ensures
            final(self)@ == (CpuState {
                status: set_flag_spec(old(self)@.status, flag),
                ..old(self)@
            }),
    {
        self.status = self.status | flag;
    }

    /// Switch the bits of `flag` off in the status register.
    pub fn clear_flag(&mut self, flag: u8)
        ensures
            final(self)@ == (CpuState {
                status: clear_flag_spec(old(self)@.status, flag),
                ..old(self)@
            }),
    {
        self.status = self.status & !flag;
    }

    /// Assign the Zero flag from `result == 0` and the Negative flag from
    /// bit 7 of `result`, leaving every other status bit unchanged.
    pub fn update_zero_negative_flags(&mut self, result: u8)
        ensures
            final(self)@ == (CpuState {
                status: update_zero_negative_spec(old(self)@.status, result),
                ..old(self)@
            }),
    {
        if result == 0 {
            self.set_flag(ZERO_FLAG);
        } else {
            self.clear_flag(ZERO_FLAG);
        }
        if result & 0b1000_0000 != 0 {
            self.set_flag(NEGATIVE_FLAG);
        } else {
            self.clear_flag(NEGATIVE_FLAG);
        }
    }

    /// Compute the effective operand address for `mode`, recording in
    /// `addr_page_crossed` whether the computation crossed a page
    /// boundary. The program counter must already point at the first
    /// operand byte. Implied mode has no operand address: asking for one
    /// is the invalid-addressing fatal error, and the state is then left
    /// untouched.
    pub(crate) fn get_op_addr(&mut self, mode: &AddrMode) -> (r: Result<u16, CpuError>)
        requires
            old(self).wf(),
        ensures
            final(self).wf(),
            mode is Implied ==> r == Err::<u16, CpuError>(CpuError::InvalidAddressing)
                && final(self)@ == old(self)@,
            !(mode is Implied) ==> r == Ok::<u16, CpuError>(resolved_addr(old(self)@, *mode))
                && final(self)@ == (CpuState {
                page_crossed: resolved_page_cross(old(self)@, *mode),
                ..old(self)@
            }),
    {
        if let AddrMode::Implied = mode {
            return Err(CpuError::InvalidAddressing);
        }
        self.addr_page_crossed = false;
        let addr = match mode {
            AddrMode::Absolute => self.memory.read_u16(self.pc),
            AddrMode::AbsoluteX => {
                let base = self.memory.read_u16(self.pc);
                let addr = base.wrapping_add(self.reg_x as u16);
                if is_page_crossed(base, addr) {
                    self.addr_page_crossed = true;
                }
                addr
            },
            AddrMode::AbsoluteY => {
                let base = self.memory.read_u16(self.pc);
                let addr = base.wrapping_add(self.reg_y as u16);
                if is_page_crossed(base, addr) {
                    self.addr_page_crossed = true;
                }
                addr
            },
            AddrMode::Implied => 0,
            AddrMode::Immediate => self.pc,
            AddrMode::Indirect => self.memory.read_u16(self.pc),
            AddrMode::IndirectX => {
                let table = self.memory.read(self.pc).wrapping_add(self.reg_x);
                self.memory.read_u16(table as u16)
            },
            AddrMode::IndirectY => {
                let base = self.memory.read_u16(self.memory.read(self.pc) as u16);
                let addr = base.wrapping_add(self.reg_y as u16);
                if is_page_crossed(base, addr) {
                    self.addr_page_crossed = true;
                }
                addr
            },
            AddrMode::Relative => self.pc,
            AddrMode::ZeroPage => self.memory.read(self.pc) as u16,
            AddrMode::ZeroPageX => self.memory.read(self.pc).wrapping_add(self.reg_x) as u16,
            AddrMode::ZeroPageY => self.memory.read(self.pc).wrapping_add(self.reg_y) as u16,
        };
        Ok(addr)
    }

    /// Execute one decoded instruction: advance the program counter past
    /// the opcode byte, resolve the operand address and advance past the
    /// operand bytes unless the mode is Implied, then run the handler and
    /// return its extra cycle charge.
    pub(crate) fn op_execute(&mut self, op: Op, mode: AddrMode) -> (extra: u8)
        requires
            old(self).wf(),
            is_implied_op(op) <==> mode is Implied,
        ensures
            final(self).wf(),
            final(self)@ == op_execute_spec(old(self)@, op, mode).0,
            extra == op_execute_spec(old(self)@, op, mode).1,
    {
        self.pc = self.pc.wrapping_add(1);
        proof {
            assert(self@ =~= (CpuState { pc: old(self)@.pc.wrapping_add(1), ..old(self)@ }));
        }
        match mode {
            AddrMode::Implied => {
                match op {
                    Op::Brk => brk(self),
                    Op::Dex => dex(self),
                    Op::Inx => inx(self),
                    Op::Tax => tax(self),
                    _ => {
                        proof {
                            assert(false);
                        }
                        0
                    },
                }
            },
            _ => {
                let ghost s1 = self@;
                let addr = match self.get_op_addr(&mode) {
                    Ok(a) => a,
                    Err(_) => {
                        proof {
                            assert(false);
                        }
                        0
                    },
                };
                let size = mode.get_size();
                self.pc = self.pc.wrapping_add(size);
                proof {
                    assert(self@ =~= (CpuState {
                        pc: s1.pc.wrapping_add(mode.size_spec()),
                        page_crossed: resolved_page_cross(s1, mode),
                        ..s1
                    }));
                }
                match op {
                    Op::Adc => adc(self, addr),
                    Op::Bne => bne(self, addr),
                    Op::Cpx => cpx(self, addr),
                    Op::Jmp => jmp(self, addr),
                    Op::Lda => lda(self, addr),
                    Op::Ldx => ldx(self, addr),
                    Op::Sta => sta(self, addr),
                    Op::Stx => stx(self, addr),
                    _ => {
                        proof {
                            assert(false);
                        }
                        0
                    },
                }
            },
        }
    }

    /// Execute exactly one instruction: fetch the opcode byte at the
    /// program counter, decode it, resolve its operand, run its handler,
    /// and return the base cycle cost plus any extra cycles. An opcode
    /// byte outside the dispatch table is the unsupported-opcode fatal
    /// error, and the state is then left untouched.
    pub fn step(&mut self) -> (r: Result<u8, CpuError>)
        requires
            old(self).wf(),
        ensures
            final(self).wf(),
            match step_spec(old(self)@) {
                Ok(outcome) => r == Ok::<u8, CpuError>(outcome.1) && final(self)@ == outcome.0,
                Err(e) => r == Err::<u8, CpuError>(e) && final(self)@ == old(self)@,
            },
    {
        let code = self.memory.read(self.pc);
        match match_opcode(code) {
            Some((op, mode, cycles)) => {
                let extra = self.op_execute(op, mode);
                Ok(cycles + extra)
            },
            None => Err(CpuError::UnsupportedOpcode(code)),
        }
    }

    /// Run the fetch-decode-execute loop: mark the processor runnable,
    /// then step until the halt instruction clears the running flag or a
    /// step fails. On success the processor has halted; on failure the
    /// state is the one the failing step found. Either way the final
    /// state is reached from the entry state by finitely many steps.
    ///
    /// The engine itself never stops a program: the loop only gives up
    /// after `u64::MAX` instructions, a budget no real workload reaches,
    /// and then returns successfully with the state it got to and the
    /// running flag still set. The contract records that case exactly.
    pub fn run(&mut self) -> (r: Result<(), CpuError>)
        requires
            old(self).wf(),
        ensures
            final(self).wf(),
            exists|n: nat|
                steps_spec(run_entry(old(self)@), n) == Ok::<CpuState, CpuError>(final(self)@),
            r is Ok ==> !final(self)@.running || steps_spec(run_entry(old(self)@), u64::MAX as nat)
                == Ok::<CpuState, CpuError>(final(self)@),
            r matches Err(e) ==> step_spec(final(self)@) == Err::<(CpuState, u8), CpuError>(e)
                && final(self)@.running,
    {
        self.running = true;
        let ghost start = self@;
        proof {
            assert(start =~= run_entry(old(self)@));
            assert(steps_spec(start, 0) == Ok::<CpuState, CpuError>(start));
        }
        let mut steps_taken: u64 = 0;
        while self.running && steps_taken < u64::MAX
            invariant
                self.wf(),
                start == run_entry(old(self)@),
                steps_spec(start, steps_taken as nat) == Ok::<CpuState, CpuError>(self@),
            decreases u64::MAX - steps_taken,
        {
            let ghost pre = self@;
            match self.step() {
                Ok(c) => {
                    proof {
                        lemma_steps_extend(start, steps_taken as nat, pre, self@, c);
                    }
                    steps_taken = steps_taken + 1;
                },
                Err(e) => {
                    return Err(e);
                },
            }
        }
        Ok(())
    }
}

/// The program-counter-advance and address-resolution phase followed by
/// one handler: the state transition and extra cycle charge of executing
/// one decoded instruction from state `s`.
pub open spec fn op_execute_spec(s: CpuState, op: Op, mode: AddrMode) -> (CpuState, u8) {
    let s1 = CpuState { pc: s.pc.wrapping_add(1), ..s };
    if mode is Implied {
        apply_op(op, s1, 0)
    } else {
        let addr = resolved_addr(s1, mode);
        let s2 = CpuState {
            pc: s1.pc.wrapping_add(mode.size_spec()),
            page_crossed: resolved_page_cross(s1, mode),
            ..s1
        };
        apply_op(op, s2, addr)
    }
}

/// One fetch-decode-execute step from state `s`: the next state and its
/// total cycle cost, or the unsupported-opcode error when the byte at the
/// program counter is outside the dispatch table.
pub open spec fn step_spec(s: CpuState) -> Result<(CpuState, u8), CpuError> {
    let code = s.mem[s.pc as int];
    match decode_spec(code) {
        Some(entry) => {
            let outcome = op_execute_spec(s, entry.0, entry.1);
            Ok((outcome.0, (entry.2 + outcome.1) as u8))
        },
        None => Err(CpuError::UnsupportedOpcode(code)),
    }
}

/// The state after `n` fetch-decode-execute steps from `s`, or the first
/// error those steps hit.
pub open spec fn steps_spec(s: CpuState, n: nat) -> Result<CpuState, CpuError>
    decreases n,
{
    if n == 0 {
        Ok(s)
    } else {
        match step_spec(s) {
            Ok(outcome) => steps_spec(outcome.0, (n - 1) as nat),
            Err(e) => Err(e),
        }
    }
}

/// The state the run loop starts from: the given state marked runnable.
pub open spec fn run_entry(s: CpuState) -> CpuState {
    CpuState { running: true, ..s }
}

/// Appending one successful step to a successful run of `n` steps gives a
/// run of `n + 1` steps.
pub proof fn lemma_steps_extend(s: CpuState, n: nat, t: CpuState, u: CpuState, cycles: u8)
    requires
        steps_spec(s, n) == Ok::<CpuState, CpuError>(t),
        step_spec(t) == Ok::<(CpuState, u8), CpuError>((u, cycles)),
    ensures
        steps_spec(s, n + 1) == Ok::<CpuState, CpuError>(u),
    decreases n,
{
    if n == 0 {
        assert(steps_spec(u, 0) == Ok::<CpuState, CpuError>(u));
        assert(steps_spec(s, 1) == Ok::<CpuState, CpuError>(u));
    } else {
        match step_spec(s) {
            Ok(outcome) => {
                lemma_steps_extend(outcome.0, (n - 1) as nat, t, u, cycles);
            },
            Err(_) => {
                assert(false);
            },
        }
    }
}

} // verus!
