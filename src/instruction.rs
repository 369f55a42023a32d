use vstd::prelude::*;

verus! {

/// A decoded instruction. `x` and `y` name registers (0 to 15), `kk` is an
/// immediate byte, `addr` a 12-bit address and `n` a 4-bit row count.
#[derive(PartialEq, Eq, Structural, Clone, Copy, Debug)]
pub enum Instruction {
    ClearScreen,
    Return,
    Jump { addr: u16 },
    Call { addr: u16 },
    SkipIfEqualByte { x: u8, kk: u8 },
    SkipIfNotEqualByte { x: u8, kk: u8 },
    SkipIfEqual { x: u8, y: u8 },
    LoadByte { x: u8, kk: u8 },
    AddByte { x: u8, kk: u8 },
    Move { x: u8, y: u8 },
    Or { x: u8, y: u8 },
    And { x: u8, y: u8 },
    Xor { x: u8, y: u8 },
    AddRegisters { x: u8, y: u8 },
    Subtract { x: u8, y: u8 },
    ShiftRight { x: u8 },
    SubtractReverse { x: u8, y: u8 },
    ShiftLeft { x: u8 },
    SkipIfNotEqual { x: u8, y: u8 },
    LoadIndex { addr: u16 },
    JumpOffset { addr: u16 },
    Random { x: u8, kk: u8 },
    Draw { x: u8, y: u8, n: u8 },
    SkipIfKeyDown { x: u8 },
    SkipIfKeyUp { x: u8 },
    LoadDelay { x: u8 },
    WaitKey { x: u8 },
    SetDelay { x: u8 },
    AddIndex { x: u8 },
    FontGlyph { x: u8 },
    Bcd { x: u8 },
    StoreRegisters { x: u8 },
    LoadRegisters { x: u8 },
    /// Any encoding not listed above; it does nothing.
    Unknown,
}

/// Nibble `k` of an opcode, nibble 0 being the most significant.
pub open spec fn nibble(opcode: u16, k: int) -> u16 {
    if k == 0 {
        opcode / 0x1000
    } else if k == 1 {
        opcode / 0x100 % 16
    } else if k == 2 {
        opcode / 16 % 16
    } else {
        opcode % 16
    }
}

/// The instruction that a 16-bit opcode encodes.
pub open spec fn instruction_of(opcode: u16) -> Instruction {
    let x = nibble(opcode, 1) as u8;
    let y = nibble(opcode, 2) as u8;
    let kk = (opcode % 256) as u8;
    let addr = opcode % 0x1000;
    let n = nibble(opcode, 3) as u8;
    match (nibble(opcode, 0), nibble(opcode, 1), nibble(opcode, 2), nibble(opcode, 3)) {
        (0x0, 0x0, 0xE, 0x0) => Instruction::ClearScreen,
        (0x0, 0x0, 0xE, 0xE) => Instruction::Return,
        (0x1, _, _, _) => Instruction::Jump { addr },
        (0x2, _, _, _) => Instruction::Call { addr },
        (0x3, _, _, _) => Instruction::SkipIfEqualByte { x, kk },
        (0x4, _, _, _) => Instruction::SkipIfNotEqualByte { x, kk },
        (0x5, _, _, _) => Instruction::SkipIfEqual { x, y },
        (0x6, _, _, _) => Instruction::LoadByte { x, kk },
        (0x7, _, _, _) => Instruction::AddByte { x, kk },
        (0x8, _, _, 0x0) => Instruction::Move { x, y },
        (0x8, _, _, 0x1) => Instruction::Or { x, y },
        (0x8, _, _, 0x2) => Instruction::And { x, y },
        (0x8, _, _, 0x3) => Instruction::Xor { x, y },
        (0x8, _, _, 0x4) => Instruction::AddRegisters { x, y },
        (0x8, _, _, 0x5) => Instruction::Subtract { x, y },
        (0x8, _, _, 0x6) => Instruction::ShiftRight { x },
        (0x8, _, _, 0x7) => Instruction::SubtractReverse { x, y },
        (0x8, _, _, 0xE) => Instruction::ShiftLeft { x },
        (0x9, _, _, _) => Instruction::SkipIfNotEqual { x, y },
        (0xA, _, _, _) => Instruction::LoadIndex { addr },
        (0xB, _, _, _) => Instruction::JumpOffset { addr },
        (0xC, _, _, _) => Instruction::Random { x, kk },
        (0xD, _, _, _) => Instruction::Draw { x, y, n },
        (0xE, _, 0x9, 0xE) => Instruction::SkipIfKeyDown { x },
        (0xE, _, 0xA, 0x1) => Instruction::SkipIfKeyUp { x },
        (0xF, _, 0x0, 0x7) => Instruction::LoadDelay { x },
        (0xF, _, 0x0, 0xA) => Instruction::WaitKey { x },
        (0xF, _, 0x1, 0x5) => Instruction::SetDelay { x },
        (0xF, _, 0x1, 0xE) => Instruction::AddIndex { x },
        (0xF, _, 0x2, 0x9) => Instruction::FontGlyph { x },
        (0xF, _, 0x3, 0x3) => Instruction::Bcd { x },
        (0xF, _, 0x5, 0x5) => Instruction::StoreRegisters { x },
        (0xF, _, 0x6, 0x5) => Instruction::LoadRegisters { x },
        _ => Instruction::Unknown,
    }
}

/// Every register operand of an instruction names one of the 16 registers,
/// every address fits in 12 bits and every row count in 4.
pub open spec fn operands_in_range(ins: Instruction) -> bool {
    match ins {
        Instruction::Jump { addr } | Instruction::Call { addr } | Instruction::LoadIndex { addr }
        | Instruction::JumpOffset { addr } => addr < 0x1000,
        Instruction::SkipIfEqualByte { x, .. } | Instruction::SkipIfNotEqualByte { x, .. }
        | Instruction::LoadByte { x, .. } | Instruction::AddByte { x, .. }
        | Instruction::Random { x, .. } | Instruction::ShiftRight { x }
        | Instruction::ShiftLeft { x } | Instruction::SkipIfKeyDown { x }
        | Instruction::SkipIfKeyUp { x } | Instruction::LoadDelay { x }
        | Instruction::WaitKey { x } | Instruction::SetDelay { x }
        | Instruction::AddIndex { x } | Instruction::FontGlyph { x } | Instruction::Bcd { x }
        | Instruction::StoreRegisters { x } | Instruction::LoadRegisters { x } => x < 16,
        Instruction::SkipIfEqual { x, y } | Instruction::Move { x, y } | Instruction::Or { x, y }
        | Instruction::And { x, y } | Instruction::Xor { x, y }
        | Instruction::AddRegisters { x, y } | Instruction::Subtract { x, y }
        | Instruction::SubtractReverse { x, y } | Instruction::SkipIfNotEqual { x, y } => x < 16
            && y < 16,
        Instruction::Draw { x, y, n } => x < 16 && y < 16 && n < 16,
        _ => true,
    }
}

/// The masks and shifts that pick the fields out of an opcode agree with
/// `nibble`.
proof fn lemma_masks(opcode: u16)
    ensures
        (opcode & 0xF000) >> 12 == nibble(opcode, 0),
        (opcode & 0x0F00) >> 8 == nibble(opcode, 1),
        (opcode & 0x00F0) >> 4 == nibble(opcode, 2),
        opcode & 0x000F == nibble(opcode, 3),
        opcode & 0x00FF == opcode % 256,
        opcode & 0x0FFF == opcode % 0x1000,
{
    assert((opcode & 0xF000) >> 12 == opcode / 0x1000) by (bit_vector);
    assert((opcode & 0x0F00) >> 8 == opcode / 0x100 % 16) by (bit_vector);
    assert((opcode & 0x00F0) >> 4 == opcode / 16 % 16) by (bit_vector);
    assert(opcode & 0x000F == opcode % 16) by (bit_vector);
    assert(opcode & 0x00FF == opcode % 256) by (bit_vector);
    assert(opcode & 0x0FFF == opcode % 0x1000) by (bit_vector);
}

/// The operands of every decoded instruction are in range.
pub proof fn lemma_operands_in_range(opcode: u16)
    ensures
        operands_in_range(instruction_of(opcode)),
{
}

/// Splits an opcode into its fields and names the instruction it encodes.
pub fn decode(opcode: u16) -> (r: Instruction)
    ensures
        r == instruction_of(opcode),
        operands_in_range(r),
{
    proof {
        lemma_masks(opcode);
    }
    let op_1 = (opcode & 0xF000) >> 12;
    let op_2 = (opcode & 0x0F00) >> 8;
    let op_3 = (opcode & 0x00F0) >> 4;
    let op_4 = opcode & 0x000F;
    let x = op_2 as u8;
    let y = op_3 as u8;
    let kk = (opcode & 0x00FF) as u8;
    let addr = opcode & 0x0FFF;
    let n = op_4 as u8;
    match (op_1, op_2, op_3, op_4) {
        (0x0, 0x0, 0xE, 0x0) => Instruction::ClearScreen,
        (0x0, 0x0, 0xE, 0xE) => Instruction::Return,
        (0x1, _, _, _) => Instruction::Jump { addr },
        (0x2, _, _, _) => Instruction::Call { addr },
        (0x3, _, _, _) => Instruction::SkipIfEqualByte { x, kk },
        (0x4, _, _, _) => Instruction::SkipIfNotEqualByte { x, kk },
        (0x5, _, _, _) => Instruction::SkipIfEqual { x, y },
        (0x6, _, _, _) => Instruction::LoadByte { x, kk },
        (0x7, _, _, _) => Instruction::AddByte { x, kk },
        (0x8, _, _, 0x0) => Instruction::Move { x, y },
        (0x8, _, _, 0x1) => Instruction::Or { x, y },
        (0x8, _, _, 0x2) => Instruction::And { x, y },
        (0x8, _, _, 0x3) => Instruction::Xor { x, y },
        (0x8, _, _, 0x4) => Instruction::AddRegisters { x, y },
        (0x8, _, _, 0x5) => Instruction::Subtract { x, y },
        (0x8, _, _, 0x6) => Instruction::ShiftRight { x },
        (0x8, _, _, 0x7) => Instruction::SubtractReverse { x, y },
        (0x8, _, _, 0xE) => Instruction::ShiftLeft { x },
        (0x9, _, _, _) => Instruction::SkipIfNotEqual { x, y },
        (0xA, _, _, _) => Instruction::LoadIndex { addr },
        (0xB, _, _, _) => Instruction::JumpOffset { addr },
        (0xC, _, _, _) => Instruction::Random { x, kk },
        (0xD, _, _, _) => Instruction::Draw { x, y, n },
        (0xE, _, 0x9, 0xE) => Instruction::SkipIfKeyDown { x },
        (0xE, _, 0xA, 0x1) => Instruction::SkipIfKeyUp { x },
        (0xF, _, 0x0, 0x7) => Instruction::LoadDelay { x },
        (0xF, _, 0x0, 0xA) => Instruction::WaitKey { x },
        (0xF, _, 0x1, 0x5) => Instruction::SetDelay { x },
        (0xF, _, 0x1, 0xE) => Instruction::AddIndex { x },
        (0xF, _, 0x2, 0x9) => Instruction::FontGlyph { x },
        (0xF, _, 0x3, 0x3) => Instruction::Bcd { x },
        (0xF, _, 0x5, 0x5) => Instruction::StoreRegisters { x },
        (0xF, _, 0x6, 0x5) => Instruction::LoadRegisters { x },
        _ => Instruction::Unknown,
    }
}

} // verus!
