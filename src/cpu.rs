//! The machine aggregate: registers, memory, call stack and display, and the
//! handlers that carry out each instruction.
use vstd::prelude::*;

use crate::decode::{decode, opcode_word, Instruction};
use crate::display::{blank, DisplayBuffer};
use crate::machine::{
    add8, advance, bcd, carry, execute, font_glyphs, initial_ram, initial_state, key_down, loaded, no_borrow,
    outcome, set_reg, set_reg_flag, skip_if, step_spec, sub8, ticked, written, Fault, MachineState,
    StepEvent, FLAG, FONT_BASE, MAX_ROM_LEN, MEMORY_SIZE, PROGRAM_START,
};
use crate::stack::CallStack;

verus! {

/// The built-in glyphs as bytes.
fn font() -> (r: [u8; 80])
    ensures
        r@ == font_glyphs(),
{
    let r = [
        0xF0u8, 0x90, 0x90, 0x90, 0xF0,
        0x20, 0x60, 0x20, 0x20, 0x70,
        0xF0, 0x10, 0xF0, 0x80, 0xF0,
        0xF0, 0x10, 0xF0, 0x10, 0xF0,
        0x90, 0x90, 0xF0, 0x10, 0x10,
        0xF0, 0x80, 0xF0, 0x10, 0xF0,
        0xF0, 0x80, 0xF0, 0x90, 0xF0,
        0xF0, 0x10, 0x20, 0x40, 0x40,
        0xF0, 0x90, 0xF0, 0x90, 0xF0,
        0xF0, 0x90, 0xF0, 0x10, 0xF0,
        0xF0, 0x90, 0xF0, 0x90, 0x90,
        0xE0, 0x90, 0xE0, 0x90, 0xE0,
        0xF0, 0x80, 0x80, 0x80, 0xF0,
        0xE0, 0x90, 0x90, 0x90, 0xE0,
        0xF0, 0x80, 0xF0, 0x80, 0xF0,
        0xF0, 0x80, 0xF0, 0x80, 0x80,
    ];
    proof {
        assert(r@ =~= font_glyphs());
    }
    r
}

/// Copies the first `count` bytes of `src` into `ram` from `at` on.
fn write_bytes(ram: &mut [u8; 4096], at: usize, src: &[u8], count: usize)
    requires
        count <= src@.len(),
        at + count <= 4096,
    ensures
        final(ram)@ == written(old(ram)@, at as int, src@.subrange(0, count as int)),
{
    let ghost before = ram@;
    let mut k: usize = 0;
    while k < count
        invariant
            k <= count <= src@.len(),
            at + count <= 4096,
            before.len() == 4096,
            ram@.len() == 4096,
            forall|a: int| 0 <= a < 4096 && !(at <= a < at + k) ==> ram@[a] == before[a],
            forall|a: int| at <= a < at + k ==> ram@[a] == src@[a - at],
        decreases count - k,
    {
        ram[at + k] = src[k];
        k = k + 1;
    }
    proof {
        assert(ram@ =~= written(before, at as int, src@.subrange(0, count as int)));
    }
}

/// One machine instance. It exclusively owns its registers, memory, call stack
/// and display buffer.
#[allow(non_snake_case)]
pub struct CPU {
    /// General registers; register 15 is the flag register.
    pub V: [u8; 16],
    /// The address register.
    pub I: u16,
    /// The delay timer.
    pub DT: u8,
    /// The sound timer.
    pub ST: u8,
    /// The program counter.
    pub PC: u16,
    /// Return addresses.
    pub stack: CallStack,
    /// The address space.
    pub ram: [u8; 4096],
    /// The in-core pixel state that draws compose into.
    pub display: DisplayBuffer,
}

impl View for CPU {
    type V = MachineState;

    open spec fn view(&self) -> MachineState {
        MachineState {
            v: self.V@,
            i: self.I,
            dt: self.DT,
            st: self.ST,
            pc: self.PC,
            stack: self.stack@,
            ram: self.ram@,
            screen: self.display@,
        }
    }
}

#[allow(non_snake_case)]
impl CPU {
    /// The call stack is well formed.
    pub open spec fn wf(&self) -> bool {
        self.stack.wf()
    }

    /// A machine with the glyphs loaded, everything else zero, the stack empty
    /// and the program counter at 0x200.
    pub fn new() -> (r: CPU)
        ensures
            r.wf(),
            r@ == initial_state(),
    {
        let mut ram = [0u8; 4096];
        let glyphs = font();
        let mut a: usize = 0;
        while a < 80
            invariant
                a <= 80,
                glyphs@ == font_glyphs(),
                ram@.len() == 4096,
                forall|b: int| 0 <= b < a ==> ram@[b] == font_glyphs()[b],
                forall|b: int| a <= b < 4096 ==> ram@[b] == 0,
            decreases 80 - a,
        {
            ram[a] = glyphs[a];
            a = a + 1;
        }
        let r = CPU {
            V: [0u8; 16],
            I: 0,
            DT: 0,
            ST: 0,
            PC: 0x200,
            stack: CallStack::new(),
            ram,
            display: DisplayBuffer::new(),
        };
        proof {
            assert(r.V@ =~= Seq::new(16, |i: int| 0u8));
            assert(r.ram@ =~= initial_ram());
        }
        r
    }

    /// Copies `rom` verbatim to 0x200. A program longer than 3584 bytes is
    /// rejected with `RomTooLarge` before anything is written.
    pub fn load_rom(&mut self, rom: &[u8]) -> (r: Result<(), Fault>)
        requires
            old(self).wf(),
        ensures
            final(self).wf(),
            rom@.len() > 3584 ==> r == Err::<(), Fault>(Fault::RomTooLarge) && final(self)@ == old(self)@,
            rom@.len() <= 3584 ==> r == Ok::<(), Fault>(())
                && final(self)@ == (MachineState { ram: loaded(old(self)@.ram, rom@), ..old(self)@ }),
    {
        if rom.len() > MAX_ROM_LEN {
            return Err(Fault::RomTooLarge);
        }
        write_bytes(&mut self.ram, PROGRAM_START, rom, rom.len());
        proof {
            assert(rom@.subrange(0, rom@.len() as int) =~= rom@);
        }
        Ok(())
    }

    /// The big-endian word at `addr` and `addr + 1`.
    pub fn read_memory(&self, addr: u16) -> (r: u16)
        requires
            addr as int + 1 < 4096,
        ensures
            r == crate::decode::word_of(self.ram@[addr as int], self.ram@[addr as int + 1]),
    {
        opcode_word(self.ram[addr as usize], self.ram[addr as usize + 1])
    }

    /// Stores `value` at `addr`.
    pub fn write_memory(&mut self, addr: u16, value: u8)
        requires
            addr < 4096,
        ensures
            final(self)@ == (MachineState { ram: old(self)@.ram.update(addr as int, value), ..old(self)@ }),
            final(self).stack == old(self).stack,
    {
        self.ram[addr as usize] = value;
    }

    /// Both timers decrease by one, stopping at zero. Meant to be called at 60 Hz.
    pub fn tick(&mut self)
        ensures
            final(self)@ == ticked(old(self)@),
            final(self).stack == old(self).stack,
    {
        if self.DT > 0 {
            self.DT = self.DT - 1;
        }
        if self.ST > 0 {
            self.ST = self.ST - 1;
        }
    }

    /// Whether the tone should sound: the sound timer is above zero.
    pub fn sound_active(&self) -> (r: bool)
        ensures
            r == (self.ST > 0),
    {
        self.ST > 0
    }

    /// Clears the display.
    pub fn CLS(&mut self)
        requires
            old(self).PC as int + 2 <= 0xFFFF,
        ensures
            final(self)@ == (MachineState { screen: blank(), ..advance(old(self)@) }),
            final(self).stack == old(self).stack,
    {
        self.display.CLS();
        self.PC = self.PC + 2;
    }

    /// Returns from a subroutine: the program counter takes the most recent
    /// return address. Fails with `StackUnderflow` on an empty stack.
    pub fn RET(&mut self) -> (r: Result<(), Fault>)
        requires
            old(self).wf(),
        ensures
            final(self).wf(),
            outcome(r, old(self)@, final(self)@, execute(old(self)@, Instruction::Return, Seq::empty(), 0)),
    {
        let a = self.stack.pop();
        match a {
            Ok(addr) => {
                self.PC = addr;
                Ok(())
            },
            Err(e) => Err(e),
        }
    }

    /// Jumps to `addr`.
    pub fn JP(&mut self, addr: u16)
        ensures
            final(self)@ == (MachineState { pc: addr, ..old(self)@ }),
            final(self).stack == old(self).stack,
    {
        self.PC = addr;
    }

    /// Calls the subroutine at `addr`: the address of the next instruction is
    /// pushed and the program counter takes `addr`. Fails with `StackOverflow`
    /// when 16 return addresses are already stacked.
    pub fn CALL(&mut self, addr: u16) -> (r: Result<(), Fault>)
        requires
            old(self).wf(),
            old(self).PC as int + 2 <= 0xFFFF,
        ensures
            final(self).wf(),
            outcome(r, old(self)@, final(self)@, execute(old(self)@, Instruction::Call { addr }, Seq::empty(), 0)),
    {
        match self.stack.push(self.PC + 2) {
            Ok(()) => {
                self.PC = addr;
                Ok(())
            },
            Err(e) => Err(e),
        }
    }

    /// Skips the next instruction when `value == byte`.
    pub fn SE(&mut self, value: u8, byte: u8)
        requires
            old(self).PC as int + 4 <= 0xFFFF,
        ensures
            final(self)@ == skip_if(old(self)@, value == byte),
            final(self).stack == old(self).stack,
    {
        if value == byte {
            self.PC = self.PC + 4;
        } else {
            self.PC = self.PC + 2;
        }
    }

    /// Skips the next instruction when `value != byte`.
    pub fn SNE(&mut self, value: u8, byte: u8)
        requires
            old(self).PC as int + 4 <= 0xFFFF,
        ensures
            final(self)@ == skip_if(old(self)@, value != byte),
            final(self).stack == old(self).stack,
    {
        if value != byte {
            self.PC = self.PC + 4;
        } else {
            self.PC = self.PC + 2;
        }
    }

    /// Skips the next instruction when the key named by register `index` is held.
    pub fn SKP(&mut self, index: usize, keys: &[bool; 16])
        requires
            index < 16,
            old(self).PC as int + 4 <= 0xFFFF,
        ensures
            final(self)@ == skip_if(old(self)@, key_down(keys@, old(self).V@[index as int])),
            final(self).stack == old(self).stack,
    {
        let k = self.V[index] as usize;
        if k < 16 && keys[k] {
            self.PC = self.PC + 4;
        } else {
            self.PC = self.PC + 2;
        }
    }

    /// Skips the next instruction unless the key named by register `index` is held.
    pub fn SKNP(&mut self, index: usize, keys: &[bool; 16])
        requires
            index < 16,
            old(self).PC as int + 4 <= 0xFFFF,
        ensures
            final(self)@ == skip_if(old(self)@, !key_down(keys@, old(self).V@[index as int])),
            final(self).stack == old(self).stack,
    {
        let k = self.V[index] as usize;
        if k < 16 && keys[k] {
            self.PC = self.PC + 2;
        } else {
            self.PC = self.PC + 4;
        }
    }

    /// Register `index` receives `val`, the program counter advances.
    fn set_reg(&mut self, index: usize, val: u8)
        requires
            index < 16,
            old(self).PC as int + 2 <= 0xFFFF,
        ensures
            final(self)@ == set_reg(old(self)@, index as int, val),
            final(self).stack == old(self).stack,
    {
        self.V[index] = val;
        self.PC = self.PC + 2;
    }

    /// Register `index` receives `val`, then the flag register receives `flag`;
    /// the program counter advances.
    fn set_reg_flag(&mut self, index: usize, val: u8, flag: u8)
        requires
            index < 16,
            old(self).PC as int + 2 <= 0xFFFF,
        ensures
            final(self)@ == set_reg_flag(old(self)@, index as int, val, flag),
            final(self).stack == old(self).stack,
    {
        self.V[index] = val;
        self.V[FLAG] = flag;
        self.PC = self.PC + 2;
    }

    /// Register `index` receives `byte`.
    pub fn LD(&mut self, index: usize, byte: u8)
        requires
            index < 16,
            old(self).PC as int + 2 <= 0xFFFF,
        ensures
            final(self)@ == set_reg(old(self)@, index as int, byte),
            final(self).stack == old(self).stack,
    {
        self.set_reg(index, byte);
    }

    /// Adds `byte` to register `index` modulo 256; the flag register is untouched.
    pub fn ADD(&mut self, index: usize, byte: u8)
        requires
            index < 16,
            old(self).PC as int + 2 <= 0xFFFF,
        ensures
            final(self)@ == set_reg(old(self)@, index as int, add8(old(self).V@[index as int], byte)),
            final(self).stack == old(self).stack,
    {
        let v = self.V[index].wrapping_add(byte);
        self.set_reg(index, v);
    }

    /// Adds `byte` to register `index` modulo 256; the flag register becomes 1
    /// when the sum exceeds 255, else 0.
    pub fn ADC(&mut self, index: usize, byte: u8)
        requires
            index < 16,
            old(self).PC as int + 2 <= 0xFFFF,
        ensures
            final(self)@ == set_reg_flag(
                old(self)@,
                index as int,
                add8(old(self).V@[index as int], byte),
                carry(old(self).V@[index as int], byte),
            ),
            final(self).stack == old(self).stack,
    {
        let a = self.V[index];
        let sum: u16 = a as u16 + byte as u16;
        let flag: u8 = if sum > 255 { 1 } else { 0 };
        self.set_reg_flag(index, (sum % 256) as u8, flag);
    }

    /// Register `index` becomes its bitwise OR with `byte`.
    pub fn OR(&mut self, index: usize, byte: u8)
        requires
            index < 16,
            old(self).PC as int + 2 <= 0xFFFF,
        ensures
            final(self)@ == set_reg(old(self)@, index as int, old(self).V@[index as int] | byte),
            final(self).stack == old(self).stack,
    {
        let v = self.V[index] | byte;
        self.set_reg(index, v);
    }

    /// Register `index` becomes its bitwise AND with `byte`.
    pub fn AND(&mut self, index: usize, byte: u8)
        requires
            index < 16,
            old(self).PC as int + 2 <= 0xFFFF,
        ensures
            final(self)@ == set_reg(old(self)@, index as int, old(self).V@[index as int] & byte),
            final(self).stack == old(self).stack,
    {
        let v = self.V[index] & byte;
        self.set_reg(index, v);
    }

    /// Register `index` becomes its bitwise XOR with `byte`.
    pub fn XOR(&mut self, index: usize, byte: u8)
        requires
            index < 16,
            old(self).PC as int + 2 <= 0xFFFF,
        ensures
            final(self)@ == set_reg(old(self)@, index as int, old(self).V@[index as int] ^ byte),
            final(self).stack == old(self).stack,
    {
        let v = self.V[index] ^ byte;
        self.set_reg(index, v);
    }

    /// Subtracts `byte` from register `index` modulo 256; the flag register
    /// becomes 1 when no borrow occurred (register >= `byte`), else 0.
    pub fn SUB(&mut self, index: usize, byte: u8)
        requires
            index < 16,
            old(self).PC as int + 2 <= 0xFFFF,
        ensures
            final(self)@ == set_reg_flag(
                old(self)@,
                index as int,
                sub8(old(self).V@[index as int], byte),
                no_borrow(old(self).V@[index as int], byte),
            ),
            final(self).stack == old(self).stack,
    {
        let a = self.V[index];
        let flag: u8 = if a >= byte { 1 } else { 0 };
        self.set_reg_flag(index, a.wrapping_sub(byte), flag);
    }

    /// Register `index` becomes `byte` minus itself modulo 256; the flag register
    /// becomes 1 when no borrow occurred (`byte` >= register), else 0.
    pub fn SUBN(&mut self, index: usize, byte: u8)
        requires
            index < 16,
            old(self).PC as int + 2 <= 0xFFFF,
        ensures
            final(self)@ == set_reg_flag(
                old(self)@,
                index as int,
                sub8(byte, old(self).V@[index as int]),
                no_borrow(byte, old(self).V@[index as int]),
            ),
            final(self).stack == old(self).stack,
    {
        let a = self.V[index];
        let flag: u8 = if byte >= a { 1 } else { 0 };
        self.set_reg_flag(index, byte.wrapping_sub(a), flag);
    }

    /// Shifts register `index` right by one; the flag register receives the bit shifted out.
    pub fn SHR(&mut self, index: usize)
        requires
            index < 16,
            old(self).PC as int + 2 <= 0xFFFF,
        ensures
            final(self)@ == set_reg_flag(
                old(self)@,
                index as int,
                old(self).V@[index as int] / 2,
                old(self).V@[index as int] % 2,
            ),
            final(self).stack == old(self).stack,
    {
        let a = self.V[index];
        self.set_reg_flag(index, a / 2, a % 2);
    }

    /// Shifts register `index` left by one, modulo 256; the flag register
    /// receives the bit shifted out.
    pub fn SHL(&mut self, index: usize)
        requires
            index < 16,
            old(self).PC as int + 2 <= 0xFFFF,
        ensures
            final(self)@ == set_reg_flag(
                old(self)@,
                index as int,
                ((old(self).V@[index as int] as int * 2) % 256) as u8,
                old(self).V@[index as int] / 128,
            ),
            final(self).stack == old(self).stack,
    {
        let a = self.V[index];
        let shifted: u8 = ((a as u16 * 2) % 256) as u8;
        self.set_reg_flag(index, shifted, a / 128);
    }

    /// Register `index` receives `random & mask`; `random` is a byte the host
    /// drew uniformly.
    pub fn RND(&mut self, index: usize, mask: u8, random: u8)
        requires
            index < 16,
            old(self).PC as int + 2 <= 0xFFFF,
        ensures
            final(self)@ == set_reg(old(self)@, index as int, random & mask),
            final(self).stack == old(self).stack,
    {
        self.set_reg(index, random & mask);
    }

    /// Draws the `n` bytes at the address register as a sprite at
    /// (register `x`, register `y`); the flag register becomes 1 when a lit
    /// pixel was turned off, else 0. Fails with `MemoryOutOfRange` when the
    /// sprite bytes run past the end of memory.
    pub fn DRW(&mut self, x: usize, y: usize, n: u8) -> (r: Result<(), Fault>)
        requires
            x < 16,
            y < 16,
            n < 16,
            old(self).PC as int + 2 <= 0xFFFF,
        ensures
            final(self).stack == old(self).stack,
            outcome(
                r,
                old(self)@,
                final(self)@,
                execute(old(self)@, Instruction::Draw { x: x as u8, y: y as u8, n }, Seq::empty(), 0),
            ),
    {
        let base = self.I as usize;
        let len = n as usize;
        if base + len > MEMORY_SIZE {
            return Err(Fault::MemoryOutOfRange);
        }
        let mut sprite: Vec<u8> = Vec::new();
        let mut k: usize = 0;
        while k < len
            invariant
                k <= len < 16,
                base + len <= 4096,
                self.ram@.len() == 4096,
                sprite@ == self.ram@.subrange(base as int, base + k),
            decreases len - k,
        {
            sprite.push(self.ram[base + k]);
            k = k + 1;
            proof {
                assert(sprite@ =~= self.ram@.subrange(base as int, base + k));
            }
        }
        let vx = self.V[x];
        let vy = self.V[y];
        let hit = self.display.draw(sprite.as_slice(), vx, vy);
        self.V[FLAG] = if hit { 1 } else { 0 };
        self.PC = self.PC + 2;
        Ok(())
    }

    /// The address register receives `addr`.
    pub fn load_address(&mut self, addr: u16)
        requires
            old(self).PC as int + 2 <= 0xFFFF,
        ensures
            final(self)@ == (MachineState { i: addr, ..advance(old(self)@) }),
            final(self).stack == old(self).stack,
    {
        self.I = addr;
        self.PC = self.PC + 2;
    }

    /// Register `index` receives the delay timer.
    pub fn load_delay(&mut self, index: usize)
        requires
            index < 16,
            old(self).PC as int + 2 <= 0xFFFF,
        ensures
            final(self)@ == set_reg(old(self)@, index as int, old(self).DT),
            final(self).stack == old(self).stack,
    {
        let d = self.DT;
        self.set_reg(index, d);
    }

    /// The delay timer receives register `index`.
    pub fn set_delay(&mut self, index: usize)
        requires
            index < 16,
            old(self).PC as int + 2 <= 0xFFFF,
        ensures
            final(self)@ == (MachineState { dt: old(self).V@[index as int], ..advance(old(self)@) }),
            final(self).stack == old(self).stack,
    {
        self.DT = self.V[index];
        self.PC = self.PC + 2;
    }

    /// The sound timer receives register `index`.
    pub fn set_sound(&mut self, index: usize)
        requires
            index < 16,
            old(self).PC as int + 2 <= 0xFFFF,
        ensures
            final(self)@ == (MachineState { st: old(self).V@[index as int], ..advance(old(self)@) }),
            final(self).stack == old(self).stack,
    {
        self.ST = self.V[index];
        self.PC = self.PC + 2;
    }

    /// Adds register `index` to the address register, modulo 4096.
    pub fn add_address(&mut self, index: usize)
        requires
            index < 16,
            old(self).PC as int + 2 <= 0xFFFF,
        ensures
            final(self)@ == (MachineState {
                i: ((old(self).I as int + old(self).V@[index as int] as int) % 4096) as u16,
                ..advance(old(self)@)
            }),
            final(self).stack == old(self).stack,
    {
        let sum: u32 = self.I as u32 + self.V[index] as u32;
        self.I = (sum % 4096) as u16;
        self.PC = self.PC + 2;
    }

    /// The address register receives the address of the glyph for the value
    /// of register `index`: the font base plus five times the value.
    pub fn font_address(&mut self, index: usize)
        requires
            index < 16,
            old(self).PC as int + 2 <= 0xFFFF,
        ensures
            final(self)@ == (MachineState {
                i: (FONT_BASE as int + old(self).V@[index as int] as int * 5) as u16,
                ..advance(old(self)@)
            }),
            final(self).stack == old(self).stack,
    {
        self.I = FONT_BASE + self.V[index] as u16 * 5;
        self.PC = self.PC + 2;
    }

    /// Stores the hundreds, tens and units digits of register `index` at the
    /// address register and the two bytes after it. Fails with
    /// `MemoryOutOfRange` when those run past the end of memory.
    pub fn store_bcd(&mut self, index: usize) -> (r: Result<(), Fault>)
        requires
            index < 16,
            old(self).PC as int + 2 <= 0xFFFF,
        ensures
            final(self).stack == old(self).stack,
            outcome(r, old(self)@, final(self)@, execute(old(self)@, Instruction::StoreBcd { x: index as u8 }, Seq::empty(), 0)),
    {
        let base = self.I as usize;
        if base + 3 > MEMORY_SIZE {
            return Err(Fault::MemoryOutOfRange);
        }
        let ghost before = self@;
        let v = self.V[index];
        self.ram[base] = v / 100;
        self.ram[base + 1] = (v / 10) % 10;
        self.ram[base + 2] = v % 10;
        self.PC = self.PC + 2;
        proof {
            assert(self.ram@ =~= written(before.ram, base as int, bcd(v)));
        }
        Ok(())
    }

    /// Copies registers 0 through `last` to memory from the address register on.
    /// Fails with `MemoryOutOfRange` when that runs past the end of memory.
    pub fn store_registers(&mut self, last: usize) -> (r: Result<(), Fault>)
        requires
            last < 16,
            old(self).PC as int + 2 <= 0xFFFF,
        ensures
            final(self).stack == old(self).stack,
            outcome(r, old(self)@, final(self)@, execute(old(self)@, Instruction::StoreRegs { x: last as u8 }, Seq::empty(), 0)),
    {
        let base = self.I as usize;
        if base + last + 1 > MEMORY_SIZE {
            return Err(Fault::MemoryOutOfRange);
        }
        write_bytes(&mut self.ram, base, &self.V, last + 1);
        self.PC = self.PC + 2;
        Ok(())
    }

    /// Copies memory from the address register on into registers 0 through `last`.
    /// Fails with `MemoryOutOfRange` when that runs past the end of memory.
    pub fn load_registers(&mut self, last: usize) -> (r: Result<(), Fault>)
        requires
            last < 16,
            old(self).PC as int + 2 <= 0xFFFF,
        ensures
            final(self).stack == old(self).stack,
            outcome(r, old(self)@, final(self)@, execute(old(self)@, Instruction::LoadRegs { x: last as u8 }, Seq::empty(), 0)),
    {
        let base = self.I as usize;
        if base + last + 1 > MEMORY_SIZE {
            return Err(Fault::MemoryOutOfRange);
        }
        let ghost bytes = self.ram@.subrange(base as int, base + last + 1);
        let mut regs = self.V;
        let mut k: usize = 0;
        while k <= last
            invariant
                last < 16,
                k <= last + 1,
                base + last + 1 <= 4096,
                regs@.len() == 16,
                self.V@.len() == 16,
                self.ram@.len() == 4096,
                bytes == self.ram@.subrange(base as int, base + last + 1),
                forall|r: int| 0 <= r < 16 && !(r < k) ==> regs@[r] == self.V@[r],
                forall|r: int| 0 <= r < k ==> regs@[r] == bytes[r],
            decreases last + 1 - k,
        {
            regs[k] = self.ram[base + k];
            k = k + 1;
        }
        proof {
            assert(regs@ =~= written(self.V@, 0, bytes));
        }
        self.V = regs;
        self.PC = self.PC + 2;
        Ok(())
    }

    /// One fetch-decode-execute step: reads the big-endian word at the program
    /// counter, decodes it and carries it out. `keys` is the state of the
    /// sixteen keys and `random` a byte the host drew uniformly, used only by
    /// the random instruction. An unrecognized word is skipped and reported as
    /// `UnknownOpcode`. On a fault nothing changes.
    pub fn evaluate_opcode(&mut self, keys: &[bool; 16], random: u8) -> (r: Result<StepEvent, Fault>)
        requires
            old(self).wf(),
        ensures
            final(self).wf(),
            match step_spec(old(self)@, keys@, random) {
                Ok((t, ev)) => r == Ok::<StepEvent, Fault>(ev) && final(self)@ == t,
                Err(e) => r == Err::<StepEvent, Fault>(e) && final(self)@ == old(self)@,
            },
    {
        if self.PC as usize + 1 >= MEMORY_SIZE {
            return Err(Fault::MemoryOutOfRange);
        }
        let word = self.read_memory(self.PC);
        let ins = decode(word);
        let done: Result<(), Fault> = match ins {
            Instruction::Clear => {
                self.CLS();
                Ok(())
            },
            Instruction::Return => self.RET(),
            Instruction::Jump { addr } => {
                self.JP(addr);
                Ok(())
            },
            Instruction::Call { addr } => self.CALL(addr),
            Instruction::SkipEqImm { x, kk } => {
                let a = self.V[x as usize];
                self.SE(a, kk);
                Ok(())
            },
            Instruction::SkipNeImm { x, kk } => {
                let a = self.V[x as usize];
                self.SNE(a, kk);
                Ok(())
            },
            Instruction::SkipEqReg { x, y } => {
                let a = self.V[x as usize];
                let b = self.V[y as usize];
                self.SE(a, b);
                Ok(())
            },
            Instruction::SkipNeReg { x, y } => {
                let a = self.V[x as usize];
                let b = self.V[y as usize];
                self.SNE(a, b);
                Ok(())
            },
            Instruction::LoadImm { x, kk } => {
                self.LD(x as usize, kk);
                Ok(())
            },
            Instruction::AddImm { x, kk } => {
                self.ADD(x as usize, kk);
                Ok(())
            },
            Instruction::LoadReg { x, y } => {
                let b = self.V[y as usize];
                self.LD(x as usize, b);
                Ok(())
            },
            Instruction::Or { x, y } => {
                let b = self.V[y as usize];
                self.OR(x as usize, b);
                Ok(())
            },
            Instruction::And { x, y } => {
                let b = self.V[y as usize];
                self.AND(x as usize, b);
                Ok(())
            },
            Instruction::Xor { x, y } => {
                let b = self.V[y as usize];
                self.XOR(x as usize, b);
                Ok(())
            },
            Instruction::AddCarry { x, y } => {
                let b = self.V[y as usize];
                self.ADC(x as usize, b);
                Ok(())
            },
            Instruction::Sub { x, y } => {
                let b = self.V[y as usize];
                self.SUB(x as usize, b);
                Ok(())
            },
            Instruction::SubReverse { x, y } => {
                let b = self.V[y as usize];
                self.SUBN(x as usize, b);
                Ok(())
            },
            Instruction::ShiftRight { x } => {
                self.SHR(x as usize);
                Ok(())
            },
            Instruction::ShiftLeft { x } => {
                self.SHL(x as usize);
                Ok(())
            },
            Instruction::LoadAddr { addr } => {
                self.load_address(addr);
                Ok(())
            },
            Instruction::Random { x, kk } => {
                self.RND(x as usize, kk, random);
                Ok(())
            },
            Instruction::Draw { x, y, n } => self.DRW(x as usize, y as usize, n),
            Instruction::SkipKey { x } => {
                self.SKP(x as usize, keys);
                Ok(())
            },
            Instruction::SkipNoKey { x } => {
                self.SKNP(x as usize, keys);
                Ok(())
            },
            Instruction::LoadDelay { x } => {
                self.load_delay(x as usize);
                Ok(())
            },
            Instruction::SetDelay { x } => {
                self.set_delay(x as usize);
                Ok(())
            },
            Instruction::SetSound { x } => {
                self.set_sound(x as usize);
                Ok(())
            },
            Instruction::AddAddr { x } => {
                self.add_address(x as usize);
                Ok(())
            },
            Instruction::FontAddr { x } => {
                self.font_address(x as usize);
                Ok(())
            },
            Instruction::StoreBcd { x } => self.store_bcd(x as usize),
            Instruction::StoreRegs { x } => self.store_registers(x as usize),
            Instruction::LoadRegs { x } => self.load_registers(x as usize),
            Instruction::Unknown { word } => {
                self.PC = self.PC + 2;
                Ok(())
            },
        };
        match done {
            Ok(()) => match ins {
                Instruction::Unknown { word } => Ok(StepEvent::UnknownOpcode { word }),
                _ => Ok(StepEvent::Executed),
            },
            Err(e) => Err(e),
        }
    }
}

} // verus!
