use vstd::prelude::*;
use vstd::slice::slice_subrange;
use crate::display::{blank, draw_collides, drawn, Display};
use crate::instruction::{decode, instruction_of, operands_in_range, Instruction};
use crate::keypad::Keypad;
use crate::rand::{cmwc_step, seeded, CmwcState, ComplementaryMultiplyWithCarryGen};

verus! {

/// Size of the addressable memory in bytes.
pub const MEMORY_SIZE: usize = 4096;

/// Address at which programs are loaded and execution starts after a reset.
pub const PROGRAM_START: u16 = 0x200;

/// Index of the flag register `VF`.
pub const FLAG: usize = 15;

/// The glyphs of the hexadecimal digits 0 to F, five rows each, kept at the
/// base of memory.
pub const FONT_SET: [u8; 80] = [
    0xF0, 0x90, 0x90, 0x90, 0xF0,  // 0
    0x20, 0x60, 0x20, 0x20, 0x70,  // 1
    0xF0, 0x10, 0xF0, 0x80, 0xF0,  // 2
    0xF0, 0x10, 0xF0, 0x10, 0xF0,  // 3
    0x90, 0x90, 0xF0, 0x10, 0x10,  // 4
    0xF0, 0x80, 0xF0, 0x10, 0xF0,  // 5
    0xF0, 0x80, 0xF0, 0x90, 0xF0,  // 6
    0xF0, 0x10, 0x20, 0x40, 0x40,  // 7
    0xF0, 0x90, 0xF0, 0x90, 0xF0,  // 8
    0xF0, 0x90, 0xF0, 0x10, 0xF0,  // 9
    0xF0, 0x90, 0xF0, 0x90, 0x90,  // A
    0xE0, 0x90, 0xE0, 0x90, 0xE0,  // B
    0xF0, 0x80, 0x80, 0x80, 0xF0,  // C
    0xE0, 0x90, 0x90, 0x90, 0xE0,  // D
    0xF0, 0x80, 0xF0, 0x80, 0xF0,  // E
    0xF0, 0x80, 0xF0, 0x80, 0x80,  // F
];

/// The font table as a sequence of bytes.
pub open spec fn font() -> Seq<u8> {
    seq![
        0xF0u8, 0x90, 0x90, 0x90, 0xF0, 0x20, 0x60, 0x20, 0x20, 0x70,
        0xF0, 0x10, 0xF0, 0x80, 0xF0, 0xF0, 0x10, 0xF0, 0x10, 0xF0,
        0x90, 0x90, 0xF0, 0x10, 0x10, 0xF0, 0x80, 0xF0, 0x10, 0xF0,
        0xF0, 0x80, 0xF0, 0x90, 0xF0, 0xF0, 0x10, 0x20, 0x40, 0x40,
        0xF0, 0x90, 0xF0, 0x90, 0xF0, 0xF0, 0x90, 0xF0, 0x10, 0xF0,
        0xF0, 0x90, 0xF0, 0x90, 0x90, 0xE0, 0x90, 0xE0, 0x90, 0xE0,
        0xF0, 0x80, 0x80, 0x80, 0xF0, 0xE0, 0x90, 0x90, 0x90, 0xE0,
        0xF0, 0x80, 0xF0, 0x80, 0xF0, 0xF0, 0x80, 0xF0, 0x80, 0x80,
    ]
}

/// The whole state of the machine.
pub struct Cpu {
    /// Index register, a memory pointer.
    pub i: u16,
    /// Program counter.
    pub pc: u16,
    pub memory: [u8; 4096],
    /// General-purpose registers `V0` to `VF`; `VF` doubles as a flag.
    pub v: [u8; 16],
    pub keypad: Keypad,
    pub display: Display,
    /// Return addresses of the calls in progress.
    pub stack: [u16; 16],
    /// Stack pointer: the next free slot of the stack.
    pub sp: u8,
    /// Delay timer.
    pub dt: u8,
    pub rand: ComplementaryMultiplyWithCarryGen,
}

/// The abstract state of the machine.
pub struct CpuState {
    pub i: u16,
    pub pc: u16,
    pub memory: Seq<u8>,
    pub v: Seq<u8>,
    pub keys: Seq<bool>,
    pub pixels: Seq<u8>,
    pub stack: Seq<u16>,
    pub sp: u8,
    pub dt: u8,
    pub rng: CmwcState,
}

impl CpuState {
    /// Every component has its size and the stack pointer stays within the
    /// stack.
    pub open spec fn wf(&self) -> bool {
        &&& self.memory.len() == 4096
        &&& self.v.len() == 16
        &&& self.keys.len() == 16
        &&& self.pixels.len() == 2048
        &&& self.stack.len() == 16
        &&& self.sp <= 16
        &&& self.rng.wf()
    }
}

/// `a` reduced to 16 bits, wrapping around.
pub open spec fn wrap16(a: int) -> u16 {
    (a % 0x10000) as u16
}

/// The 16-bit word stored big-endian at `addr`.
pub open spec fn word_at(memory: Seq<u8>, addr: int) -> u16 {
    (memory[addr] * 256 + memory[addr + 1]) as u16
}

/// The opcode that the next cycle fetches.
pub open spec fn fetch(s: CpuState) -> u16 {
    word_at(s.memory, s.pc as int)
}

/// The state with register `x` set to `b`.
pub open spec fn set_v(s: CpuState, x: u8, b: u8) -> CpuState {
    CpuState { v: s.v.update(x as int, b), ..s }
}

/// The state that skips the next instruction when `c` holds.
pub open spec fn skip_if(s: CpuState, c: bool) -> CpuState {
    if c {
        CpuState { pc: wrap16(s.pc + 2), ..s }
    } else {
        s
    }
}

/// The highest index below `n` of a pressed key, or -1 when none is.
pub open spec fn last_key_down(keys: Seq<bool>, n: int) -> int
    decreases n,
{
    if n <= 0 {
        -1
    } else if keys[n - 1] {
        n - 1
    } else {
        last_key_down(keys, n - 1)
    }
}

/// Whether the byte `b`, read as a signed byte, is negative.
pub open spec fn negative(b: u8) -> bool {
    b >= 128
}

/// The flag value for a condition: 1 when it holds, else 0.
pub open spec fn flag(c: bool) -> u8 {
    if c {
        1
    } else {
        0
    }
}

/// Whether `ins` stays inside memory and the stack on state `s`: the
/// addresses it reads or writes lie below 4096, a return has a frame to pop,
/// a call has a free slot to push, a key test names one of the 16 keys.
/// An instruction that breaks these is a fault of the program.
pub open spec fn in_bounds(s: CpuState, ins: Instruction) -> bool {
    match ins {
        Instruction::Return => 1 <= s.sp,
        Instruction::Call { .. } => s.sp < 16,
        Instruction::Draw { n, .. } => s.i + n <= 4096,
        Instruction::SkipIfKeyDown { x } | Instruction::SkipIfKeyUp { x } => s.v[x as int] < 16,
        Instruction::Bcd { .. } => s.i + 2 < 4096,
        Instruction::StoreRegisters { x } | Instruction::LoadRegisters { x } => s.i + x + 1 <= 4096,
        _ => true,
    }
}

/// The effect of `ins` on `s`, whose program counter already points past it.
pub open spec fn execute(s: CpuState, ins: Instruction) -> CpuState {
    if is_flag_op(ins) {
        flag_effect(s, ins)
    } else if is_register_op(ins) {
        register_effect(s, ins)
    } else if is_memory_op(ins) {
        memory_effect(s, ins)
    } else {
        control_effect(s, ins)
    }
}

/// The effect of an instruction that clears the screen, moves the program
/// counter, or waits for or tests a key.
pub open spec fn control_effect(s: CpuState, ins: Instruction) -> CpuState {
    match ins {
        Instruction::ClearScreen => CpuState { pixels: blank(), ..s },
        Instruction::Return => CpuState {
            sp: (s.sp - 1) as u8,
            pc: s.stack[s.sp - 1],
            ..s
        },
        Instruction::Jump { addr } => CpuState { pc: addr, ..s },
        Instruction::Call { addr } => CpuState {
            stack: s.stack.update(s.sp as int, s.pc),
            sp: (s.sp + 1) as u8,
            pc: addr,
            ..s
        },
        Instruction::SkipIfEqualByte { x, kk } => skip_if(s, s.v[x as int] == kk),
        Instruction::SkipIfNotEqualByte { x, kk } => skip_if(s, s.v[x as int] != kk),
        Instruction::SkipIfEqual { x, y } => skip_if(s, s.v[x as int] == s.v[y as int]),
        Instruction::SkipIfNotEqual { x, y } => skip_if(s, s.v[x as int] != s.v[y as int]),
        Instruction::JumpOffset { addr } => CpuState { pc: wrap16(addr + s.v[0]), ..s },
        Instruction::SkipIfKeyDown { x } => skip_if(s, s.keys[s.v[x as int] as int]),
        Instruction::SkipIfKeyUp { x } => skip_if(s, !s.keys[s.v[x as int] as int]),
        Instruction::LoadDelay { x } => set_v(s, x, s.dt),
        Instruction::WaitKey { x } => {
            let k = last_key_down(s.keys, 16);
            if k >= 0 {
                set_v(s, x, k as u8)
            } else {
                CpuState { pc: wrap16(s.pc - 2), ..s }
            }
        },
        Instruction::SetDelay { x } => CpuState { dt: s.v[x as int], ..s },
        _ => s,
    }
}

/// The effect of an instruction that computes a register without touching
/// the flag register on its own account.
pub open spec fn register_effect(s: CpuState, ins: Instruction) -> CpuState {
    match ins {
        Instruction::LoadByte { x, kk } => set_v(s, x, kk),
        Instruction::AddByte { x, kk } => set_v(s, x, ((s.v[x as int] + kk) % 256) as u8),
        Instruction::Move { x, y } => set_v(s, x, s.v[y as int]),
        Instruction::Or { x, y } => set_v(s, x, s.v[x as int] | s.v[y as int]),
        Instruction::And { x, y } => set_v(s, x, s.v[x as int] & s.v[y as int]),
        Instruction::Xor { x, y } => set_v(s, x, s.v[x as int] ^ s.v[y as int]),
        Instruction::Random { x, kk } => {
            let (rng, word) = cmwc_step(s.rng);
            CpuState { rng, v: s.v.update(x as int, ((word % 256) as u8) & kk), ..s }
        },
        _ => s,
    }
}

/// The effect of an arithmetic instruction that also sets the flag register.
/// A subtraction takes the difference of the two registers read as signed
/// bytes, wrapped to 8 bits, and sets the flag when that is negative. A
/// left shift stores the shifted-out bit in place (0 or 0x80) as the flag.
pub open spec fn flag_effect(s: CpuState, ins: Instruction) -> CpuState {
    match ins {
        Instruction::AddRegisters { x, y } => {
            let sum = s.v[x as int] + s.v[y as int];
            CpuState { v: s.v.update(15, flag(sum > 255)).update(x as int, (sum % 256) as u8), ..s }
        },
        Instruction::Subtract { x, y } => {
            let d = ((s.v[x as int] - s.v[y as int]) % 256) as u8;
            CpuState { v: s.v.update(x as int, d).update(15, flag(negative(d))), ..s }
        },
        Instruction::ShiftRight { x } => {
            let v1 = s.v.update(15, s.v[x as int] & 1);
            CpuState { v: v1.update(x as int, v1[x as int] / 2), ..s }
        },
        Instruction::SubtractReverse { x, y } => {
            let d = ((s.v[y as int] - s.v[x as int]) % 256) as u8;
            CpuState { v: s.v.update(x as int, d).update(15, flag(negative(d))), ..s }
        },
        Instruction::ShiftLeft { x } => {
            let v1 = s.v.update(15, s.v[x as int] & 0x80);
            CpuState { v: v1.update(x as int, ((v1[x as int] * 2) % 256) as u8), ..s }
        },
        _ => s,
    }
}

/// The effect of an instruction on the index register, memory or the screen.
pub open spec fn memory_effect(s: CpuState, ins: Instruction) -> CpuState {
    match ins {
        Instruction::LoadIndex { addr } => CpuState { i: addr, ..s },
        Instruction::Draw { x, y, n } => {
            let sprite = s.memory.subrange(s.i as int, s.i + n);
            let (col, row) = (s.v[x as int] as int, s.v[y as int] as int);
            CpuState {
                pixels: drawn(s.pixels, col, row, sprite),
                v: s.v.update(15, flag(draw_collides(s.pixels, col, row, sprite))),
                ..s
            }
        },
        Instruction::AddIndex { x } => CpuState { i: wrap16(s.i + s.v[x as int]), ..s },
        Instruction::FontGlyph { x } => CpuState { i: (s.v[x as int] * 5) as u16, ..s },
        Instruction::Bcd { x } => {
            let b = s.v[x as int];
            CpuState {
                memory: s.memory.update(s.i as int, b / 100).update(s.i + 1, (b / 10) % 10).update(
                    s.i + 2,
                    b % 10,
                ),
                ..s
            }
        },
        Instruction::StoreRegisters { x } => CpuState {
            memory: Seq::new(
                4096,
                |a: int|
                    if s.i <= a <= s.i + x {
                        s.v[a - s.i]
                    } else {
                        s.memory[a]
                    },
            ),
            ..s
        },
        Instruction::LoadRegisters { x } => CpuState {
            v: Seq::new(
                16,
                |r: int|
                    if r <= x {
                        s.memory[s.i + r]
                    } else {
                        s.v[r]
                    },
            ),
            ..s
        },
        _ => s,
    }
}

/// Whether `ins` computes a register from registers, an immediate byte or
/// the generator, and leaves the flag register to the general rule.
pub open spec fn is_register_op(ins: Instruction) -> bool {
    match ins {
        Instruction::LoadByte { .. }
        | Instruction::AddByte { .. }
        | Instruction::Move { .. }
        | Instruction::Or { .. }
        | Instruction::And { .. }
        | Instruction::Xor { .. }
        | Instruction::Random { .. } => true,
        _ => false,
    }
}

/// Whether `ins` is an arithmetic instruction that also sets the flag
/// register.
pub open spec fn is_flag_op(ins: Instruction) -> bool {
    match ins {
        Instruction::AddRegisters { .. }
        | Instruction::Subtract { .. }
        | Instruction::ShiftRight { .. }
        | Instruction::SubtractReverse { .. }
        | Instruction::ShiftLeft { .. } => true,
        _ => false,
    }
}

/// Whether `ins` works on the index register, memory or the screen.
pub open spec fn is_memory_op(ins: Instruction) -> bool {
    match ins {
        Instruction::Draw { .. }
        | Instruction::Bcd { .. }
        | Instruction::StoreRegisters { .. }
        | Instruction::LoadRegisters { .. }
        | Instruction::LoadIndex { .. }
        | Instruction::AddIndex { .. }
        | Instruction::FontGlyph { .. } => true,
        _ => false,
    }
}

/// One instruction cycle on `s` with `opcode`: the program counter moves
/// past the instruction, then the instruction takes effect.
pub open spec fn step(s: CpuState, opcode: u16) -> CpuState {
    execute(CpuState { pc: wrap16(s.pc + 2), ..s }, instruction_of(opcode))
}

/// Whether the next cycle of `s` can fetch its opcode and run it without a
/// fault.
pub open spec fn can_cycle(s: CpuState) -> bool {
    &&& s.pc + 1 < 4096
    &&& in_bounds(s, instruction_of(fetch(s)))
}

/// The state after one cycle of `s`.
pub open spec fn cycle(s: CpuState) -> CpuState {
    step(s, fetch(s))
}

/// The state after a reset of a machine whose keys are `keys`.
pub open spec fn reset_state(keys: Seq<bool>) -> CpuState {
    CpuState {
        i: 0,
        pc: PROGRAM_START,
        memory: Seq::new(4096, |a: int| if a < 80 { font()[a] } else { 0u8 }),
        v: Seq::new(16, |r: int| 0u8),
        keys,
        pixels: blank(),
        stack: Seq::new(16, |k: int| 0u16),
        sp: 0,
        dt: 0,
        rng: seeded(1),
    }
}

impl View for Cpu {
    type V = CpuState;

    open spec fn view(&self) -> CpuState {
        CpuState {
            i: self.i,
            pc: self.pc,
            memory: self.memory@,
            v: self.v@,
            keys: self.keypad@,
            pixels: self.display@,
            stack: self.stack@,
            sp: self.sp,
            dt: self.dt,
            rng: self.rand@,
        }
    }
}

/// Reads the big-endian word at `index`.
fn read_word(memory: &[u8; 4096], index: u16) -> (r: u16)
    requires
        index < 4095,
    ensures
        r == word_at(memory@, index as int),
{
    let hi = memory[index as usize];
    let lo = memory[index as usize + 1];
    let r = (hi as u16) << 8 | (lo as u16);
    assert(r == hi * 256 + lo) by (bit_vector)
        requires
            r == (hi as u16) << 8 | (lo as u16),
    ;
    r
}

impl Cpu {
    /// The stack pointer stays within the stack and the generator's index
    /// within its buffer.
    pub open spec fn wf(&self) -> bool {
        &&& self.sp <= 16
        &&& self.rand.wf()
    }

    /// A machine with everything zeroed, the program counter at 0, no font
    /// loaded and the generator seeded with 1.
    pub fn new() -> (r: Cpu)
        ensures
            r.wf(),
            r@ == (CpuState {
                i: 0,
                pc: 0,
                memory: Seq::new(4096, |a: int| 0u8),
                v: Seq::new(16, |r: int| 0u8),
                keys: Seq::new(16, |k: int| false),
                pixels: blank(),
                stack: Seq::new(16, |k: int| 0u16),
                sp: 0,
                dt: 0,
                rng: seeded(1),
            }),
    {
        let r = Cpu {
            i: 0,
            pc: 0,
            memory: [0; 4096],
            v: [0; 16],
            display: Display::new(),
            keypad: Keypad::new(),
            stack: [0; 16],
            sp: 0,
            dt: 0,
            rand: ComplementaryMultiplyWithCarryGen::new(1),
        };
        assert(r.memory@ =~= Seq::new(4096, |a: int| 0u8));
        assert(r.v@ =~= Seq::new(16, |r: int| 0u8));
        assert(r.stack@ =~= Seq::new(16, |k: int| 0u16));
        r
    }

    /// Reinitialises everything but the keypad: registers, stack, timer and
    /// memory are zeroed, the font is written at the base of memory, the
    /// screen is cleared, the generator is reseeded with 1 and execution
    /// restarts at the program start address.
    pub fn reset(&mut self)
        ensures
            final(self).wf(),
            final(self)@ == reset_state(old(self)@.keys),
    {
        self.i = 0;
        self.pc = PROGRAM_START;
        self.memory = [0; 4096];
        self.v = [0; 16];
        self.stack = [0; 16];
        self.sp = 0;
        self.dt = 0;
        self.rand = ComplementaryMultiplyWithCarryGen::new(1);
        self.display.cls();
        let ghost keys = self.keypad@;
        let mut k: usize = 0;
        assert(self.memory@ =~= Seq::new(4096, |a: int| if a < 0 { font()[a] } else { 0u8 }));
        assert(self.v@ =~= reset_state(keys).v);
        assert(self.stack@ =~= reset_state(keys).stack);
        while k < 80
            invariant
                k <= 80,
                self.wf(),
                self@ == (CpuState {
                    memory: Seq::new(4096, |a: int| if a < k { font()[a] } else { 0u8 }),
                    ..reset_state(keys)
                }),
            decreases 80 - k,
        {
            self.memory[k] = FONT_SET[k];
            assert(self.memory@ =~= Seq::new(4096, |a: int| if a < k + 1 { font()[a] } else { 0u8 }));
            k += 1;
        }
        assert(self.memory@ =~= reset_state(keys).memory);
    }

    /// Runs one cycle: fetches the big-endian opcode at the program counter
    /// and processes it.
    pub fn execute_cycle(&mut self)
        requires
            old(self).wf(),
            can_cycle(old(self)@),
        ensures
            final(self).wf(),
            final(self)@ == cycle(old(self)@),
    {
        let opcode: u16 = read_word(&self.memory, self.pc);
        self.process_opcode(opcode);
    }

    /// Whether the machine is well formed and its next cycle can run without
    /// a fault; a host tests this before `execute_cycle`.
    pub fn cycle_in_bounds(&self) -> (r: bool)
        ensures
            r == (self.wf() && can_cycle(self@)),
    {
        if self.sp > 16 || self.rand.i >= 4096 || self.pc >= 4095 {
            return false;
        }
        let ins = decode(read_word(&self.memory, self.pc));
        self.instruction_in_bounds(ins)
    }

    /// Whether `ins` stays inside memory and the stack on this state.
    fn instruction_in_bounds(&self, ins: Instruction) -> (r: bool)
        requires
            operands_in_range(ins),
        ensures
            r == in_bounds(self@, ins),
    {
        match ins {
            Instruction::Return => 1 <= self.sp,
            Instruction::Call { .. } => self.sp < 16,
            Instruction::Draw { n, .. } => self.i as usize + n as usize <= MEMORY_SIZE,
            Instruction::SkipIfKeyDown { x } | Instruction::SkipIfKeyUp { x } => self.v[x as usize] < 16,
            Instruction::Bcd { .. } => (self.i as usize) + 2 < MEMORY_SIZE,
            Instruction::StoreRegisters { x } | Instruction::LoadRegisters { x } => self.i as usize + x as usize + 1 <= MEMORY_SIZE,
            _ => true,
        }
    }

    /// Counts the delay timer down by one, stopping at zero.
    pub fn decrement_timers(&mut self)
        ensures
            final(self)@ == (CpuState {
                dt: if old(self).dt > 0 { (old(self).dt - 1) as u8 } else { 0 },
                ..old(self)@
            }),
            final(self).wf() == old(self).wf(),
    {
        if self.dt > 0 {
            self.dt -= 1;
        }
    }

    /// Processes `opcode`: the program counter moves past it, then the
    /// instruction it encodes takes effect.
    pub fn process_opcode(&mut self, opcode: u16)
        requires
            old(self).wf(),
            in_bounds(old(self)@, instruction_of(opcode)),
        ensures
            final(self).wf(),
            final(self)@ == step(old(self)@, opcode),
    {
        let ins = decode(opcode);
        self.pc = self.pc.wrapping_add(2);
        self.apply(ins);
    }

    /// Sets `Vx` to the highest pressed key, or re-arms the instruction
    /// (moves the program counter back to it) when no key is pressed.
    fn wait_key(&mut self, x: u8)
        requires
            old(self).wf(),
            x < 16,
        ensures
            final(self).wf(),
            final(self)@ == control_effect(old(self)@, Instruction::WaitKey { x }),
    {
        let mut pressed = false;
        let mut last: u8 = 0;
        let mut k: usize = 0;
        while k < 16
            invariant
                k <= 16,
                pressed == (last_key_down(self.keypad@, k as int) >= 0),
                pressed ==> last == last_key_down(self.keypad@, k as int),
                -1 <= last_key_down(self.keypad@, k as int) < k,
            decreases 16 - k,
        {
            if self.keypad.keys[k] {
                last = k as u8;
                pressed = true;
            }
            k += 1;
        }
        if pressed {
            self.v[x as usize] = last;
        } else {
            self.pc = self.pc.wrapping_sub(2);
        }
    }

    /// Copies `V0..=Vx` to memory from the index register on.
    fn store_registers(&mut self, x: u8)
        requires
            old(self).wf(),
            x < 16,
            old(self).i + x + 1 <= 4096,
        ensures
            final(self).wf(),
            final(self)@ == memory_effect(old(self)@, Instruction::StoreRegisters { x }),
    {
        let ghost s = self@;
        let start = self.i as usize;
        let mut k: usize = 0;
        assert(self.memory@ =~= Seq::new(
            4096,
            |a: int|
                if start <= a < start + 0 {
                    s.v[a - start]
                } else {
                    s.memory[a]
                },
        ));
        while k <= x as usize
            invariant
                k <= x + 1,
                x < 16,
                start == s.i,
                start + x + 1 <= 4096,
                self@ == (CpuState {
                    memory: Seq::new(
                        4096,
                        |a: int|
                            if start <= a < start + k {
                                s.v[a - start]
                            } else {
                                s.memory[a]
                            },
                    ),
                    ..s
                }),
                self.wf(),
            decreases x + 1 - k,
        {
            self.memory[start + k] = self.v[k];
            assert(self.memory@ =~= Seq::new(
                4096,
                |a: int|
                    if start <= a < start + k + 1 {
                        s.v[a - start]
                    } else {
                        s.memory[a]
                    },
            ));
            k += 1;
        }
        assert(self.memory@ =~= memory_effect(s, Instruction::StoreRegisters { x }).memory);
    }

    /// Fills `V0..=Vx` from memory from the index register on.
    fn load_registers(&mut self, x: u8)
        requires
            old(self).wf(),
            x < 16,
            old(self).i + x + 1 <= 4096,
        ensures
            final(self).wf(),
            final(self)@ == memory_effect(old(self)@, Instruction::LoadRegisters { x }),
    {
        let ghost s = self@;
        let start = self.i as usize;
        let mut k: usize = 0;
        assert(self.v@ =~= Seq::new(16, |r: int| if r < 0 { s.memory[start + r] } else { s.v[r] }));
        while k <= x as usize
            invariant
                k <= x + 1,
                x < 16,
                start == s.i,
                start + x + 1 <= 4096,
                self@ == (CpuState {
                    v: Seq::new(16, |r: int| if r < k { s.memory[start + r] } else { s.v[r] }),
                    ..s
                }),
                self.wf(),
            decreases x + 1 - k,
        {
            self.v[k] = self.memory[start + k];
            assert(self.v@ =~= Seq::new(
                16,
                |r: int| if r < k + 1 { s.memory[start + r] } else { s.v[r] },
            ));
            k += 1;
        }
        assert(self.v@ =~= memory_effect(s, Instruction::LoadRegisters { x }).v);
    }

    /// Applies the effect of `ins`; the program counter already points past
    /// it.
    fn apply(&mut self, ins: Instruction)
        requires
            old(self).wf(),
            operands_in_range(ins),
            in_bounds(old(self)@, ins),
        ensures
            final(self).wf(),
            final(self)@ == execute(old(self)@, ins),
    {
        match ins {
            Instruction::ClearScreen => self.display.cls(),
            Instruction::Return => {
                self.sp = self.sp - 1;
                self.pc = self.stack[self.sp as usize];
            },
            Instruction::Jump { addr } => self.pc = addr,
            Instruction::Call { addr } => {
                self.stack[self.sp as usize] = self.pc;
                self.sp = self.sp + 1;
                self.pc = addr;
            },
            Instruction::SkipIfEqualByte { x, kk } => {
                if self.v[x as usize] == kk {
                    self.pc = self.pc.wrapping_add(2);
                }
            },
            Instruction::SkipIfNotEqualByte { x, kk } => {
                if self.v[x as usize] != kk {
                    self.pc = self.pc.wrapping_add(2);
                }
            },
            Instruction::SkipIfEqual { x, y } => {
                if self.v[x as usize] == self.v[y as usize] {
                    self.pc = self.pc.wrapping_add(2);
                }
            },
            Instruction::SkipIfNotEqual { x, y } => {
                if self.v[x as usize] != self.v[y as usize] {
                    self.pc = self.pc.wrapping_add(2);
                }
            },
            Instruction::JumpOffset { addr } => self.pc = addr.wrapping_add(self.v[0] as u16),
            Instruction::SkipIfKeyDown { x } => {
                if self.keypad.is_key_down(self.v[x as usize]) {
                    self.pc = self.pc.wrapping_add(2);
                }
            },
            Instruction::SkipIfKeyUp { x } => {
                if !self.keypad.is_key_down(self.v[x as usize]) {
                    self.pc = self.pc.wrapping_add(2);
                }
            },
            Instruction::LoadDelay { x } => self.v[x as usize] = self.dt,
            Instruction::WaitKey { x } => self.wait_key(x),
            Instruction::SetDelay { x } => self.dt = self.v[x as usize],
            Instruction::Unknown => {},
            Instruction::LoadByte { .. }
            | Instruction::AddByte { .. }
            | Instruction::Move { .. }
            | Instruction::Or { .. }
            | Instruction::And { .. }
            | Instruction::Xor { .. }
            | Instruction::Random { .. } => self.apply_register_op(ins),
            Instruction::AddRegisters { .. }
            | Instruction::Subtract { .. }
            | Instruction::ShiftRight { .. }
            | Instruction::SubtractReverse { .. }
            | Instruction::ShiftLeft { .. } => self.apply_flag_op(ins),
            Instruction::Draw { .. }
            | Instruction::Bcd { .. }
            | Instruction::StoreRegisters { .. }
            | Instruction::LoadRegisters { .. }
            | Instruction::LoadIndex { .. }
            | Instruction::AddIndex { .. }
            | Instruction::FontGlyph { .. } => self.apply_memory_op(ins),
        }
    }

    /// Sets `Vx` to the low byte of the next random word, masked by `kk`.
    fn random_byte(&mut self, x: u8, kk: u8)
        requires
            old(self).wf(),
            x < 16,
        ensures
            final(self).wf(),
            final(self)@ == register_effect(old(self)@, Instruction::Random { x, kk }),
    {
        let word = self.rand.random();
        let low = #[verifier::truncate] (word as u8);
        assert(low == word % 256) by (bit_vector)
            requires
                low == #[verifier::truncate] (word as u8),
        ;
        self.v[x as usize] = low & kk;
    }

    /// Applies an arithmetic instruction that also sets the flag register.
    fn apply_flag_op(&mut self, ins: Instruction)
        requires
            old(self).wf(),
            operands_in_range(ins),
            is_flag_op(ins),
        ensures
            final(self).wf(),
            final(self)@ == flag_effect(old(self)@, ins),
    {
        match ins {
            Instruction::AddRegisters { x, y } => {
                let sum = self.v[x as usize] as u16 + self.v[y as usize] as u16;
                self.v[FLAG] = if sum > 0xFF { 1 } else { 0 };
                self.v[x as usize] = (sum % 256) as u8;
            },
            Instruction::Subtract { x, y } => {
                let d = self.v[x as usize].wrapping_sub(self.v[y as usize]);
                self.v[x as usize] = d;
                self.v[FLAG] = if d >= 0x80 { 1 } else { 0 };
            },
            Instruction::ShiftRight { x } => {
                self.v[FLAG] = self.v[x as usize] & 0x1;
                self.v[x as usize] = self.v[x as usize] / 2;
            },
            Instruction::SubtractReverse { x, y } => {
                let d = self.v[y as usize].wrapping_sub(self.v[x as usize]);
                self.v[x as usize] = d;
                self.v[FLAG] = if d >= 0x80 { 1 } else { 0 };
            },
            Instruction::ShiftLeft { x } => {
                self.v[FLAG] = self.v[x as usize] & 0x80;
                let doubled = self.v[x as usize] as u16 * 2;
                self.v[x as usize] = (doubled % 256) as u8;
            },
            _ => {},
        }
    }

    /// Applies an instruction that computes into the registers.
    fn apply_register_op(&mut self, ins: Instruction)
        requires
            old(self).wf(),
            operands_in_range(ins),
            is_register_op(ins),
        ensures
            final(self).wf(),
            final(self)@ == register_effect(old(self)@, ins),
    {
        match ins {
            Instruction::LoadByte { x, kk } => self.v[x as usize] = kk,
            Instruction::AddByte { x, kk } => {
                let sum = self.v[x as usize] as u16 + kk as u16;
                self.v[x as usize] = (sum % 256) as u8;
            },
            Instruction::Move { x, y } => self.v[x as usize] = self.v[y as usize],
            Instruction::Or { x, y } => self.v[x as usize] = self.v[x as usize] | self.v[y as usize],
            Instruction::And { x, y } => self.v[x as usize] = self.v[x as usize] & self.v[y as usize],
            Instruction::Xor { x, y } => self.v[x as usize] = self.v[x as usize] ^ self.v[y as usize],
            Instruction::Random { x, kk } => self.random_byte(x, kk),
            _ => {},
        }
    }

    /// Applies an instruction that works on the index register, memory or
    /// the screen.
    fn apply_memory_op(&mut self, ins: Instruction)
        requires
            old(self).wf(),
            operands_in_range(ins),
            in_bounds(old(self)@, ins),
            is_memory_op(ins),
        ensures
            final(self).wf(),
            final(self)@ == memory_effect(old(self)@, ins),
    {
        match ins {
            Instruction::LoadIndex { addr } => self.i = addr,
            Instruction::Draw { x, y, n } => {
                let col = self.v[x as usize] as usize;
                let row = self.v[y as usize] as usize;
                let start = self.i as usize;
                let sprite = slice_subrange(self.memory.as_slice(), start, start + n as usize);
                let collision = self.display.draw(col, row, sprite);
                self.v[FLAG] = if collision { 1 } else { 0 };
            },
            Instruction::AddIndex { x } => self.i = self.i.wrapping_add(self.v[x as usize] as u16),
            Instruction::FontGlyph { x } => self.i = self.v[x as usize] as u16 * 5,
            Instruction::Bcd { x } => {
                let b = self.v[x as usize];
                let at = self.i as usize;
                self.memory[at] = b / 100;
                self.memory[at + 1] = (b / 10) % 10;
                self.memory[at + 2] = b % 10;
            },
            Instruction::StoreRegisters { x } => self.store_registers(x),
            Instruction::LoadRegisters { x } => self.load_registers(x),
            _ => {},
        }
    }
}

} // verus!
