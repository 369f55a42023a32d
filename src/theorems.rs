use vstd::prelude::*;
use crate::cpu::{cycle, fetch, last_key_down, step, wrap16, CpuState};
use crate::display::{blit, collides, draw_collides, drawn, sprite_bit};
use crate::instruction::{instruction_of, lemma_operands_in_range, Instruction};

verus! {

/// The state after `n` cycles of `s`.
pub open spec fn run(s: CpuState, n: nat) -> CpuState
    decreases n,
{
    if n == 0 {
        s
    } else {
        run(cycle(s), (n - 1) as nat)
    }
}

/// Adding an immediate byte to `Vx` stores the sum modulo 256, and leaves
/// the flag register alone unless `Vx` is the flag register itself.
pub proof fn lemma_add_byte_wraps(s: CpuState, opcode: u16, x: u8, kk: u8)
    requires
        s.wf(),
        instruction_of(opcode) == (Instruction::AddByte { x, kk }),
    ensures
        step(s, opcode).v[x as int] == (s.v[x as int] + kk) % 256,
        x != 15 ==> step(s, opcode).v[15] == s.v[15],
        step(s, opcode).pc == wrap16(s.pc + 2),
{
    lemma_operands_in_range(opcode);
}

/// Adding `Vy` to `Vx` stores the low byte of the sum in `Vx`; unless `Vx`
/// is the flag register, the flag is 1 when the sum exceeds 255 and 0
/// otherwise.
pub proof fn lemma_add_registers_carry(s: CpuState, opcode: u16, x: u8, y: u8)
    requires
        s.wf(),
        instruction_of(opcode) == (Instruction::AddRegisters { x, y }),
    ensures
        step(s, opcode).v[x as int] == (s.v[x as int] + s.v[y as int]) % 256,
        x != 15 ==> step(s, opcode).v[15] == (if s.v[x as int] + s.v[y as int] <= 255 {
            0u8
        } else {
            1u8
        }),
{
    lemma_operands_in_range(opcode);
}

/// Subtracting `Vy` from `Vx`: when the difference fits in a signed byte,
/// the flag is 1 exactly when `Vx < Vy`; unless `Vx` is the flag register,
/// `Vx` holds the difference modulo 256.
pub proof fn lemma_subtract_borrow(s: CpuState, opcode: u16, x: u8, y: u8)
    requires
        s.wf(),
        instruction_of(opcode) == (Instruction::Subtract { x, y }),
        -128 <= s.v[x as int] - s.v[y as int] <= 127,
    ensures
        step(s, opcode).v[15] == (if s.v[x as int] < s.v[y as int] {
            1u8
        } else {
            0u8
        }),
        x != 15 ==> step(s, opcode).v[x as int] == (s.v[x as int] - s.v[y as int]) % 256,
{
    lemma_operands_in_range(opcode);
}

proof fn lemma_blank_blit(pixels: Seq<u8>, x: int, y: int, sprite: Seq<u8>, k: nat)
    requires
        k <= 8 * sprite.len(),
        forall|j: int| 0 <= j < sprite.len() ==> sprite[j] == 0,
    ensures
        blit(pixels, x, y, sprite, k) == pixels,
        !collides(pixels, x, y, sprite, k),
    decreases k,
{
    if k > 0 {
        lemma_blank_blit(pixels, x, y, sprite, (k - 1) as nat);
        let i = (k - 1) % 8;
        let j = (k - 1) / 8;
        let shift = (7 - i) as u8;
        assert((0u8 >> shift) & 1 == 0) by (bit_vector);
        assert(!sprite_bit(sprite[j], i));
    }
}

/// Drawing a sprite whose bytes are all zero changes no pixel and reports
/// no collision, whatever the framebuffer holds.
pub proof fn lemma_blank_sprite_draws_nothing(pixels: Seq<u8>, x: int, y: int, sprite: Seq<u8>)
    requires
        forall|j: int| 0 <= j < sprite.len() ==> sprite[j] == 0,
    ensures
        drawn(pixels, x, y, sprite) == pixels,
        !draw_collides(pixels, x, y, sprite),
{
    lemma_blank_blit(pixels, x, y, sprite, (8 * sprite.len()) as nat);
}

/// A call immediately followed by a return resumes right after the call,
/// with the stack pointer back where it was.
pub proof fn lemma_call_then_return(s: CpuState, call: u16, addr: u16)
    requires
        s.wf(),
        s.sp < 16,
        instruction_of(call) == (Instruction::Call { addr }),
    ensures
        step(step(s, call), 0x00EE).pc == wrap16(s.pc + 2),
        step(step(s, call), 0x00EE).sp == s.sp,
{
    assert((0x00EEu16 & 0xF000) >> 12 == 0) by (bit_vector);
    assert((0x00EEu16 & 0x0F00) >> 8 == 0) by (bit_vector);
    assert((0x00EEu16 & 0x00F0) >> 4 == 0xE) by (bit_vector);
    assert(0x00EEu16 & 0x000F == 0xE) by (bit_vector);
    assert(instruction_of(0x00EE) == Instruction::Return);
}

/// Waiting for a key while none is pressed leaves the whole state as it
/// was, so the machine keeps fetching the same wait on every later cycle.
pub proof fn lemma_wait_key_idles(s: CpuState, x: u8, n: nat)
    requires
        s.wf(),
        instruction_of(fetch(s)) == (Instruction::WaitKey { x }),
        forall|k: int| 0 <= k < 16 ==> !s.keys[k],
    ensures
        cycle(s) == s,
        run(s, n) == s,
    decreases n,
{
    lemma_operands_in_range(fetch(s));
    assert(last_key_down(s.keys, 16) == -1) by {
        reveal_with_fuel(last_key_down, 17);
    }
    assert(cycle(s) == s);
    if n > 0 {
        lemma_wait_key_idles(s, x, (n - 1) as nat);
    }
}

/// Waiting for a key while some are pressed loads the highest pressed key
/// into `Vx` and moves on to the next instruction.
pub proof fn lemma_wait_key_takes_highest(s: CpuState, opcode: u16, x: u8)
    requires
        s.wf(),
        instruction_of(opcode) == (Instruction::WaitKey { x }),
        exists|k: int| 0 <= k < 16 && s.keys[k],
    ensures
        step(s, opcode).v[x as int] == last_key_down(s.keys, 16),
        step(s, opcode).pc == wrap16(s.pc + 2),
{
    lemma_operands_in_range(opcode);
    let k = choose|k: int| 0 <= k < 16 && s.keys[k];
    lemma_last_key_down_found(s.keys, 16, k);
}

proof fn lemma_last_key_down_found(keys: Seq<bool>, n: int, k: int)
    requires
        0 <= k < n,
        keys[k],
    ensures
        k <= last_key_down(keys, n) < n,
    decreases n,
{
    if k < n - 1 && !keys[n - 1] {
        lemma_last_key_down_found(keys, n - 1, k);
    }
}

} // verus!
