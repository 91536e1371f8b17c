//! The mathematical model of a machine state and the meaning of each instruction over it.
use vstd::prelude::*;

use crate::decode::{instruction_of, word_of, Instruction};
use crate::display::{collides, drawn, blank};

verus! {

/// Size of the address space.
pub const MEMORY_SIZE: usize = 4096;

/// Where programs are loaded and where execution starts.
pub const PROGRAM_START: usize = 0x200;

/// The largest program that fits between `PROGRAM_START` and the end of memory.
pub const MAX_ROM_LEN: usize = 3584;

/// Where the built-in glyphs start; each glyph is 5 bytes.
pub const FONT_BASE: u16 = 0;

/// The register that receives carry, borrow and collision flags.
pub const FLAG: usize = 15;

/// What aborts a step, or loading a program. A faulting step changes nothing.
#[derive(Clone, Copy, Debug, PartialEq, Eq, Structural)]
pub enum Fault {
    /// An access at or past address 0x1000.
    MemoryOutOfRange,
    /// A call with 16 return addresses already on the stack.
    StackOverflow,
    /// A return with an empty stack.
    StackUnderflow,
    /// A program longer than 3584 bytes.
    RomTooLarge,
}

/// What a successful step reports to its caller.
#[derive(Clone, Copy, Debug, PartialEq, Eq, Structural)]
pub enum StepEvent {
    /// A recognized instruction ran.
    Executed,
    /// The word matched no instruction family; it was skipped as a no-op.
    UnknownOpcode { word: u16 },
}

/// A whole machine as mathematical values.
pub struct MachineState {
    /// The sixteen general registers.
    pub v: Seq<u8>,
    /// The address register.
    pub i: u16,
    /// The delay timer.
    pub dt: u8,
    /// The sound timer.
    pub st: u8,
    /// The program counter.
    pub pc: u16,
    /// Return addresses, oldest first.
    pub stack: Seq<u16>,
    /// The 4096 bytes of memory.
    pub ram: Seq<u8>,
    /// The 2048 pixels, row-major.
    pub screen: Seq<bool>,
}

/// The sixteen built-in glyphs, digits 0 to F, five bytes each.
pub open spec fn font_glyphs() -> Seq<u8> {
    seq![
        0xF0u8, 0x90, 0x90, 0x90, 0xF0,
        0x20, 0x60, 0x20, 0x20, 0x70,
        0xF0, 0x10, 0xF0, 0x80, 0xF0,
        0xF0, 0x10, 0xF0, 0x10, 0xF0,
        0x90, 0x90, 0xF0, 0x10, 0x10,
        0xF0, 0x80, 0xF0, 0x10, 0xF0,
        0xF0, 0x80, 0xF0, 0x90, 0xF0,
        0xF0, 0x10, 0x20, 0x40, 0x40,
        0xF0, 0x90, 0xF0, 0x90, 0xF0,
        0xF0, 0x90, 0xF0, 0x10, 0xF0,
        0xF0, 0x90, 0xF0, 0x90, 0x90,
        0xE0, 0x90, 0xE0, 0x90, 0xE0,
        0xF0, 0x80, 0x80, 0x80, 0xF0,
        0xE0, 0x90, 0x90, 0x90, 0xE0,
        0xF0, 0x80, 0xF0, 0x80, 0xF0,
        0xF0, 0x80, 0xF0, 0x80, 0x80,
    ]
}

/// Memory at power-on: the glyphs at the bottom, zero elsewhere.
pub open spec fn initial_ram() -> Seq<u8> {
    Seq::new(4096, |a: int| if a < 80 { font_glyphs()[a] } else { 0u8 })
}

/// The state of a freshly created machine.
pub open spec fn initial_state() -> MachineState {
    MachineState {
        v: Seq::new(16, |r: int| 0u8),
        i: 0,
        dt: 0,
        st: 0,
        pc: 0x200,
        stack: Seq::empty(),
        ram: initial_ram(),
        screen: blank(),
    }
}

/// Memory after copying `rom` verbatim to `PROGRAM_START`.
pub open spec fn loaded(ram: Seq<u8>, rom: Seq<u8>) -> Seq<u8> {
    written(ram, 0x200, rom)
}

/// The length of every sequence in a state is the machine's.
pub open spec fn shaped(s: MachineState) -> bool {
    &&& s.v.len() == 16
    &&& s.stack.len() <= 16
    &&& s.ram.len() == 4096
    &&& s.screen.len() == 2048
}

/// 8-bit addition, wrapping modulo 256.
pub open spec fn add8(a: u8, b: u8) -> u8 {
    ((a as int + b as int) % 256) as u8
}

/// 8-bit subtraction, wrapping modulo 256.
pub open spec fn sub8(a: u8, b: u8) -> u8 {
    ((a as int - b as int + 256) % 256) as u8
}

/// 1 when the 9-bit sum exceeds 255.
pub open spec fn carry(a: u8, b: u8) -> u8 {
    if a as int + b as int > 255 { 1 } else { 0 }
}

/// 1 when `a - b` needs no borrow.
pub open spec fn no_borrow(a: u8, b: u8) -> u8 {
    if a >= b { 1 } else { 0 }
}

/// Whether key `k` is held, for a key state of sixteen entries; values past 15 name no key.
pub open spec fn key_down(keys: Seq<bool>, k: u8) -> bool {
    k < 16 && keys[k as int]
}

/// The state with the program counter moved past the current instruction.
pub open spec fn advance(s: MachineState) -> MachineState {
    MachineState { pc: (s.pc + 2) as u16, ..s }
}

/// The state with the program counter moved past the current instruction,
/// and past the next one too when `cond` holds.
pub open spec fn skip_if(s: MachineState, cond: bool) -> MachineState {
    MachineState { pc: (if cond { s.pc + 4 } else { s.pc + 2 }) as u16, ..s }
}

/// Register `x` receives `val`; the program counter advances.
pub open spec fn set_reg(s: MachineState, x: int, val: u8) -> MachineState {
    MachineState { v: s.v.update(x, val), pc: (s.pc + 2) as u16, ..s }
}

/// Register `x` receives `val`, then the flag register receives `flag`;
/// the program counter advances.
pub open spec fn set_reg_flag(s: MachineState, x: int, val: u8, flag: u8) -> MachineState {
    MachineState { v: s.v.update(x, val).update(15, flag), pc: (s.pc + 2) as u16, ..s }
}

/// Memory after writing `bytes` at `addr`.
pub open spec fn written(ram: Seq<u8>, addr: int, bytes: Seq<u8>) -> Seq<u8> {
    Seq::new(ram.len(), |a: int| if addr <= a < addr + bytes.len() { bytes[a - addr] } else { ram[a] })
}

/// The three decimal digits of a byte, hundreds first.
pub open spec fn bcd(b: u8) -> Seq<u8> {
    seq![b / 100, (b / 10) % 10, b % 10]
}

/// Whether `len` bytes from `addr` lie inside memory.
pub open spec fn in_memory(addr: int, len: int) -> bool {
    addr + len <= 4096
}

/// Executes `ins` on `s`, where `s.pc` is the address the instruction was fetched from.
/// `keys` is the key state and `rnd` the random byte that a random instruction masks.
pub open spec fn execute(s: MachineState, ins: Instruction, keys: Seq<bool>, rnd: u8) -> Result<MachineState, Fault> {
    match ins {
        Instruction::Clear => Ok(MachineState { screen: blank(), ..advance(s) }),
        Instruction::Return => if s.stack.len() == 0 {
            Err(Fault::StackUnderflow)
        } else {
            Ok(MachineState { pc: s.stack.last(), stack: s.stack.drop_last(), ..s })
        },
        Instruction::Jump { addr } => Ok(MachineState { pc: addr, ..s }),
        Instruction::Call { addr } => if s.stack.len() >= 16 {
            Err(Fault::StackOverflow)
        } else {
            Ok(MachineState { pc: addr, stack: s.stack.push((s.pc + 2) as u16), ..s })
        },
        Instruction::SkipEqImm { x, kk } => Ok(skip_if(s, s.v[x as int] == kk)),
        Instruction::SkipNeImm { x, kk } => Ok(skip_if(s, s.v[x as int] != kk)),
        Instruction::SkipEqReg { x, y } => Ok(skip_if(s, s.v[x as int] == s.v[y as int])),
        Instruction::SkipNeReg { x, y } => Ok(skip_if(s, s.v[x as int] != s.v[y as int])),
        Instruction::LoadImm { x, kk } => Ok(set_reg(s, x as int, kk)),
        Instruction::AddImm { x, kk } => Ok(set_reg(s, x as int, add8(s.v[x as int], kk))),
        Instruction::LoadReg { x, y } => Ok(set_reg(s, x as int, s.v[y as int])),
        Instruction::Or { x, y } => Ok(set_reg(s, x as int, s.v[x as int] | s.v[y as int])),
        Instruction::And { x, y } => Ok(set_reg(s, x as int, s.v[x as int] & s.v[y as int])),
        Instruction::Xor { x, y } => Ok(set_reg(s, x as int, s.v[x as int] ^ s.v[y as int])),
        Instruction::AddCarry { x, y } => Ok(
            set_reg_flag(s, x as int, add8(s.v[x as int], s.v[y as int]), carry(s.v[x as int], s.v[y as int])),
        ),
        Instruction::Sub { x, y } => Ok(
            set_reg_flag(s, x as int, sub8(s.v[x as int], s.v[y as int]), no_borrow(s.v[x as int], s.v[y as int])),
        ),
        Instruction::SubReverse { x, y } => Ok(
            set_reg_flag(s, x as int, sub8(s.v[y as int], s.v[x as int]), no_borrow(s.v[y as int], s.v[x as int])),
        ),
        Instruction::ShiftRight { x } => Ok(set_reg_flag(s, x as int, s.v[x as int] / 2, s.v[x as int] % 2)),
        Instruction::ShiftLeft { x } => Ok(
            set_reg_flag(s, x as int, ((s.v[x as int] as int * 2) % 256) as u8, s.v[x as int] / 128),
        ),
        Instruction::LoadAddr { addr } => Ok(MachineState { i: addr, ..advance(s) }),
        Instruction::Random { x, kk } => Ok(set_reg(s, x as int, rnd & kk)),
        Instruction::Draw { x, y, n } => if !in_memory(s.i as int, n as int) {
            Err(Fault::MemoryOutOfRange)
        } else {
            let sprite = s.ram.subrange(s.i as int, s.i as int + n as int);
            let vx = s.v[x as int];
            let vy = s.v[y as int];
            Ok(MachineState {
                screen: drawn(s.screen, sprite, vx, vy),
                v: s.v.update(15, if collides(s.screen, sprite, vx, vy) { 1u8 } else { 0u8 }),
                ..advance(s)
            })
        },
        Instruction::SkipKey { x } => Ok(skip_if(s, key_down(keys, s.v[x as int]))),
        Instruction::SkipNoKey { x } => Ok(skip_if(s, !key_down(keys, s.v[x as int]))),
        Instruction::LoadDelay { x } => Ok(set_reg(s, x as int, s.dt)),
        Instruction::SetDelay { x } => Ok(MachineState { dt: s.v[x as int], ..advance(s) }),
        Instruction::SetSound { x } => Ok(MachineState { st: s.v[x as int], ..advance(s) }),
        Instruction::AddAddr { x } => Ok(
            MachineState { i: ((s.i as int + s.v[x as int] as int) % 4096) as u16, ..advance(s) },
        ),
        Instruction::FontAddr { x } => Ok(
            MachineState { i: (FONT_BASE as int + s.v[x as int] as int * 5) as u16, ..advance(s) },
        ),
        Instruction::StoreBcd { x } => if !in_memory(s.i as int, 3) {
            Err(Fault::MemoryOutOfRange)
        } else {
            Ok(MachineState { ram: written(s.ram, s.i as int, bcd(s.v[x as int])), ..advance(s) })
        },
        Instruction::StoreRegs { x } => if !in_memory(s.i as int, x as int + 1) {
            Err(Fault::MemoryOutOfRange)
        } else {
            Ok(MachineState { ram: written(s.ram, s.i as int, s.v.subrange(0, x as int + 1)), ..advance(s) })
        },
        Instruction::LoadRegs { x } => if !in_memory(s.i as int, x as int + 1) {
            Err(Fault::MemoryOutOfRange)
        } else {
            Ok(MachineState {
                v: written(s.v, 0, s.ram.subrange(s.i as int, s.i as int + x as int + 1)),
                ..advance(s)
            })
        },
        Instruction::Unknown { word } => Ok(advance(s)),
    }
}

/// Whether an instruction word can be fetched at the program counter.
pub open spec fn fetchable(s: MachineState) -> bool {
    s.pc as int + 1 < 4096
}

/// The opcode word at the program counter.
pub open spec fn fetched(s: MachineState) -> u16 {
    word_of(s.ram[s.pc as int], s.ram[s.pc as int + 1])
}

/// One fetch-decode-execute transition: the next state and what to report, or the fault.
pub open spec fn step_spec(s: MachineState, keys: Seq<bool>, rnd: u8) -> Result<(MachineState, StepEvent), Fault> {
    if !fetchable(s) {
        Err(Fault::MemoryOutOfRange)
    } else {
        let w = fetched(s);
        let ins = instruction_of(w);
        match execute(s, ins, keys, rnd) {
            Ok(t) => Ok(
                (t, if ins is Unknown { StepEvent::UnknownOpcode { word: w } } else { StepEvent::Executed }),
            ),
            Err(e) => Err(e),
        }
    }
}

/// A timer one tick later: one less, never below zero.
pub open spec fn timer_tick(t: u8) -> u8 {
    if t > 0 { (t - 1) as u8 } else { 0 }
}

/// A timer after `n` ticks.
pub open spec fn timer_after(t: u8, n: nat) -> u8
    decreases n,
{
    if n == 0 { t } else { timer_tick(timer_after(t, (n - 1) as nat)) }
}

/// Both timers one tick later.
pub open spec fn ticked(s: MachineState) -> MachineState {
    MachineState { dt: timer_tick(s.dt), st: timer_tick(s.st), ..s }
}

/// How a fallible handler's result and final state follow from the expected outcome:
/// on success the state is the expected one, on a fault nothing changed.
pub open spec fn outcome(r: Result<(), Fault>, before: MachineState, after: MachineState, expected: Result<MachineState, Fault>) -> bool {
    match expected {
        Ok(t) => r == Ok::<(), Fault>(()) && after == t,
        Err(e) => r == Err::<(), Fault>(e) && after == before,
    }
}

} // verus!
