use vstd::prelude::*;
use vstd::string::*;
use crate::text::{dec_digits, hex_digits, push_dec, push_hex, push_reg, reg_text};

verus! {

/// The faults the machine can report.
#[derive(Clone, Copy, Debug, PartialEq, Eq, Structural)]
pub enum Chip8Error {
    UnknownInstructionError,
    AddressOutOfRangeError,
    ProgramLoadError,
    StackOverflowError,
    StackUnderflowError,
}

impl Chip8Error {
    /// A short description of each fault.
    pub open spec fn description_spec(self) -> Seq<char> {
        match self {
            Chip8Error::UnknownInstructionError => "instruction unknown"@,
            Chip8Error::AddressOutOfRangeError => "memory address out of range"@,
            Chip8Error::ProgramLoadError => "error loading program rom"@,
            Chip8Error::StackOverflowError => "stack overflow"@,
            Chip8Error::StackUnderflowError => "stack underflow"@,
        }
    }

    /// A short description of the fault.
    pub fn description(&self) -> (r: &'static str)
        ensures
            r@ == self.description_spec(),
    {
        match self {
            Chip8Error::UnknownInstructionError => "instruction unknown",
            Chip8Error::AddressOutOfRangeError => "memory address out of range",
            Chip8Error::ProgramLoadError => "error loading program rom",
            Chip8Error::StackOverflowError => "stack overflow",
            Chip8Error::StackUnderflowError => "stack underflow",
        }
    }
}

/// A decoded instruction with its operand fields.
#[derive(Clone, Copy, Debug, PartialEq, Eq, Structural)]
pub enum OpCode {
    ClearScreen,
    Return,
    Jump { address: usize },
    Call { address: usize },
    SkipByteEqual { x: usize, byte: u8 },
    SkipByteNotEqual { x: usize, byte: u8 },
    SkipEqual { x: usize, y: usize },
    SkipNotEqual { x: usize, y: usize },
    LoadByte { x: usize, byte: u8 },
    AddByte { x: usize, byte: u8 },
    Load { x: usize, y: usize },
    Or { x: usize, y: usize },
    And { x: usize, y: usize },
    Xor { x: usize, y: usize },
    Add { x: usize, y: usize },
    Sub { x: usize, y: usize },
    ShiftRight { x: usize },
    SubReverse { x: usize, y: usize },
    ShiftLeft { x: usize },
    LoadAddress { address: usize },
    JumpOffset { address: usize },
    Random { x: usize, byte: u8 },
    Draw { x: usize, y: usize, n: u8 },
    SkipKeyPressed { x: usize },
    SkipNotPressed { x: usize },
    LoadFromDelayTimer { x: usize },
    WaitKey { x: usize },
    LoadDelayTimer { x: usize },
    LoadSoundTimer { x: usize },
    AddAddress { x: usize },
    LoadFont { x: usize },
    BCD { x: usize },
    Save { x: usize },
    Restore { x: usize },
    Unknown { instruction: u16 },
}

/// The 12-bit address field of an instruction word.
pub open spec fn addr_field(w: u16) -> usize {
    (w & 0x0FFF) as usize
}

/// The low byte of an instruction word.
pub open spec fn byte_field(w: u16) -> u8 {
    (w & 0x00FF) as u8
}

/// The low nibble of an instruction word.
pub open spec fn n_field(w: u16) -> u8 {
    (w & 0x000F) as u8
}

/// The first register operand (bits 8 to 11).
pub open spec fn x_field(w: u16) -> usize {
    ((w >> 8u16) & 0x000F) as usize
}

/// The second register operand (bits 4 to 7).
pub open spec fn y_field(w: u16) -> usize {
    ((w >> 4u16) & 0x000F) as usize
}

/// The decode table, most specific mask first: the exact words `00E0` and
/// `00EE`; the `5xy0`, `8xy_` and `9xy0` families under `0xF00F`; the
/// families named by their high nibble alone under `0xF000`; the `Ex__` and
/// `Fx__` families under `0xF0FF`. A word that matches no pattern is `Unknown`.
pub open spec fn decode_spec(w: u16) -> OpCode {
    let address = addr_field(w);
    let byte = byte_field(w);
    let n = n_field(w);
    let x = x_field(w);
    let y = y_field(w);
    if w == 0x00E0 {
        OpCode::ClearScreen
    } else if w == 0x00EE {
        OpCode::Return
    } else if w & 0xF000 == 0x1000 {
        OpCode::Jump { address }
    } else if w & 0xF000 == 0x2000 {
        OpCode::Call { address }
    } else if w & 0xF000 == 0x3000 {
        OpCode::SkipByteEqual { x, byte }
    } else if w & 0xF000 == 0x4000 {
        OpCode::SkipByteNotEqual { x, byte }
    } else if w & 0xF00F == 0x5000 {
        OpCode::SkipEqual { x, y }
    } else if w & 0xF000 == 0x6000 {
        OpCode::LoadByte { x, byte }
    } else if w & 0xF000 == 0x7000 {
        OpCode::AddByte { x, byte }
    } else if w & 0xF00F == 0x8000 {
        OpCode::Load { x, y }
    } else if w & 0xF00F == 0x8001 {
        OpCode::Or { x, y }
    } else if w & 0xF00F == 0x8002 {
        OpCode::And { x, y }
    } else if w & 0xF00F == 0x8003 {
        OpCode::Xor { x, y }
    } else if w & 0xF00F == 0x8004 {
        OpCode::Add { x, y }
    } else if w & 0xF00F == 0x8005 {
        OpCode::Sub { x, y }
    } else if w & 0xF00F == 0x8006 {
        OpCode::ShiftRight { x }
    } else if w & 0xF00F == 0x8007 {
        OpCode::SubReverse { x, y }
    } else if w & 0xF00F == 0x800E {
        OpCode::ShiftLeft { x }
    } else if w & 0xF00F == 0x9000 {
        OpCode::SkipNotEqual { x, y }
    } else if w & 0xF000 == 0xA000 {
        OpCode::LoadAddress { address }
    } else if w & 0xF000 == 0xB000 {
        OpCode::JumpOffset { address }
    } else if w & 0xF000 == 0xC000 {
        OpCode::Random { x, byte }
    } else if w & 0xF000 == 0xD000 {
        OpCode::Draw { x, y, n }
    } else if w & 0xF0FF == 0xE09E {
        OpCode::SkipKeyPressed { x }
    } else if w & 0xF0FF == 0xE0A1 {
        OpCode::SkipNotPressed { x }
    } else if w & 0xF0FF == 0xF007 {
        OpCode::LoadFromDelayTimer { x }
    } else if w & 0xF0FF == 0xF00A {
        OpCode::WaitKey { x }
    } else if w & 0xF0FF == 0xF015 {
        OpCode::LoadDelayTimer { x }
    } else if w & 0xF0FF == 0xF018 {
        OpCode::LoadSoundTimer { x }
    } else if w & 0xF0FF == 0xF01E {
        OpCode::AddAddress { x }
    } else if w & 0xF0FF == 0xF029 {
        OpCode::LoadFont { x }
    } else if w & 0xF0FF == 0xF033 {
        OpCode::BCD { x }
    } else if w & 0xF0FF == 0xF055 {
        OpCode::Save { x }
    } else if w & 0xF0FF == 0xF065 {
        OpCode::Restore { x }
    } else {
        OpCode::Unknown { instruction: w }
    }
}


/// The mnemonic that the disassembler shows for an instruction.
pub open spec fn mnemonic_spec(op: OpCode) -> Seq<char> {
    match op {
            OpCode::ClearScreen => "CLS"@,
            OpCode::Return => "RET"@,
            OpCode::Jump { .. } => "JUMP"@,
            OpCode::Call { .. } => "CALL"@,
            OpCode::SkipByteEqual { .. } => "SE"@,
            OpCode::SkipByteNotEqual { .. } => "SNE"@,
            OpCode::SkipEqual { .. } => "SE"@,
            OpCode::SkipNotEqual { .. } => "SNE"@,
            OpCode::LoadByte { .. } => "LOAD"@,
            OpCode::AddByte { .. } => "ADD"@,
            OpCode::Load { .. } => "LOAD"@,
            OpCode::Or { .. } => "OR"@,
            OpCode::And { .. } => "AND"@,
            OpCode::Xor { .. } => "XOR"@,
            OpCode::Add { .. } => "ADD"@,
            OpCode::Sub { .. } => "SUB"@,
            OpCode::ShiftRight { .. } => "SHR"@,
            OpCode::SubReverse { .. } => "SUBN"@,
            OpCode::ShiftLeft { .. } => "SHL"@,
            OpCode::LoadAddress { .. } => "LOAD"@,
            OpCode::JumpOffset { .. } => "JUMP"@,
            OpCode::Random { .. } => "RND"@,
            OpCode::Draw { .. } => "DRAW"@,
            OpCode::SkipKeyPressed { .. } => "SKP"@,
            OpCode::SkipNotPressed { .. } => "SKNP"@,
            OpCode::LoadFromDelayTimer { .. } => "LOAD"@,
            OpCode::WaitKey { .. } => "LOAD"@,
            OpCode::LoadDelayTimer { .. } => "LOAD"@,
            OpCode::LoadSoundTimer { .. } => "LOAD"@,
            OpCode::AddAddress { .. } => "ADD"@,
            OpCode::LoadFont { .. } => "FONT"@,
            OpCode::BCD { .. } => "BCD"@,
            OpCode::Save { .. } => "SAV"@,
            OpCode::Restore { .. } => "RST"@,
            OpCode::Unknown { .. } => "???"@,
    }
}

/// The operand text that the disassembler shows for an instruction.
pub open spec fn operands_spec(op: OpCode) -> Seq<char> {
    match op {
        OpCode::ClearScreen => Seq::empty(),
        OpCode::Return => Seq::empty(),
        OpCode::Jump { address } => "#"@ + hex_digits(address as nat, 4),
        OpCode::Call { address } => "#"@ + hex_digits(address as nat, 4),
        OpCode::SkipByteEqual { x, byte } => reg_text(x as nat) + ", "@ + hex_digits(byte as nat, 2),
        OpCode::SkipByteNotEqual { x, byte } => reg_text(x as nat) + ", "@ + hex_digits(byte as nat, 2),
        OpCode::SkipEqual { x, y } => reg_text(x as nat) + ", V"@ + dec_digits(y as nat),
        OpCode::LoadByte { x, byte } => reg_text(x as nat) + ", "@ + hex_digits(byte as nat, 2),
        OpCode::AddByte { x, byte } => reg_text(x as nat) + ", "@ + hex_digits(byte as nat, 2),
        OpCode::Load { x, y } => reg_text(x as nat) + ", "@ + reg_text(y as nat),
        OpCode::Or { x, y } => reg_text(x as nat) + ", "@ + reg_text(y as nat),
        OpCode::And { x, y } => reg_text(x as nat) + ", "@ + reg_text(y as nat),
        OpCode::Xor { x, y } => reg_text(x as nat) + ", "@ + reg_text(y as nat),
        OpCode::Add { x, y } => reg_text(x as nat) + ", "@ + reg_text(y as nat),
        OpCode::Sub { x, y } => reg_text(x as nat) + ", "@ + reg_text(y as nat),
        OpCode::ShiftRight { x } => reg_text(x as nat),
        OpCode::SubReverse { x, y } => reg_text(x as nat) + ", "@ + reg_text(y as nat),
        OpCode::ShiftLeft { x } => reg_text(x as nat),
        OpCode::SkipNotEqual { x, y } => reg_text(x as nat) + ", "@ + reg_text(y as nat),
        OpCode::LoadAddress { address } => "I, #"@ + hex_digits(address as nat, 4),
        OpCode::JumpOffset { address } => "V0, #"@ + hex_digits(address as nat, 4),
        OpCode::Random { x, byte } => reg_text(x as nat) + ", #"@ + hex_digits(byte as nat, 2),
        OpCode::Draw { x, y, n } => reg_text(x as nat) + ", "@ + reg_text(y as nat) + ", "@ + dec_digits(n as nat),
        OpCode::SkipKeyPressed { x } => reg_text(x as nat),
        OpCode::SkipNotPressed { x } => reg_text(x as nat),
        OpCode::LoadFromDelayTimer { x } => reg_text(x as nat) + ", DT"@,
        OpCode::WaitKey { x } => reg_text(x as nat) + ", K"@,
        OpCode::LoadDelayTimer { x } => "DT, "@ + reg_text(x as nat),
        OpCode::LoadSoundTimer { x } => "ST, "@ + reg_text(x as nat),
        OpCode::AddAddress { x } => "I, "@ + reg_text(x as nat),
        OpCode::LoadFont { x } => "I, "@ + reg_text(x as nat),
        OpCode::BCD { x } => "I, "@ + reg_text(x as nat),
        OpCode::Save { x } => "[I], "@ + reg_text(x as nat),
        OpCode::Restore { x } => reg_text(x as nat) + ", [I]"@,
        OpCode::Unknown { .. } => Seq::empty(),
    }
}

fn mnemonic_text(op: OpCode) -> (r: &'static str)
    ensures
        r@ == mnemonic_spec(op),
{
    match op {
            OpCode::ClearScreen => "CLS",
            OpCode::Return => "RET",
            OpCode::Jump { .. } => "JUMP",
            OpCode::Call { .. } => "CALL",
            OpCode::SkipByteEqual { .. } => "SE",
            OpCode::SkipByteNotEqual { .. } => "SNE",
            OpCode::SkipEqual { .. } => "SE",
            OpCode::SkipNotEqual { .. } => "SNE",
            OpCode::LoadByte { .. } => "LOAD",
            OpCode::AddByte { .. } => "ADD",
            OpCode::Load { .. } => "LOAD",
            OpCode::Or { .. } => "OR",
            OpCode::And { .. } => "AND",
            OpCode::Xor { .. } => "XOR",
            OpCode::Add { .. } => "ADD",
            OpCode::Sub { .. } => "SUB",
            OpCode::ShiftRight { .. } => "SHR",
            OpCode::SubReverse { .. } => "SUBN",
            OpCode::ShiftLeft { .. } => "SHL",
            OpCode::LoadAddress { .. } => "LOAD",
            OpCode::JumpOffset { .. } => "JUMP",
            OpCode::Random { .. } => "RND",
            OpCode::Draw { .. } => "DRAW",
            OpCode::SkipKeyPressed { .. } => "SKP",
            OpCode::SkipNotPressed { .. } => "SKNP",
            OpCode::LoadFromDelayTimer { .. } => "LOAD",
            OpCode::WaitKey { .. } => "LOAD",
            OpCode::LoadDelayTimer { .. } => "LOAD",
            OpCode::LoadSoundTimer { .. } => "LOAD",
            OpCode::AddAddress { .. } => "ADD",
            OpCode::LoadFont { .. } => "FONT",
            OpCode::BCD { .. } => "BCD",
            OpCode::Save { .. } => "SAV",
            OpCode::Restore { .. } => "RST",
            OpCode::Unknown { .. } => "???",
    }
}

fn operand_text(op: OpCode) -> (r: String)
    requires
        op.wf(),
    ensures
        r@ == operands_spec(op),
{
    let mut s = String::new();
    match op {
        OpCode::ClearScreen | OpCode::Return | OpCode::Unknown { .. } => {},
        OpCode::Jump { address } | OpCode::Call { address } => {
            s.append("#");
            push_hex(&mut s, address, 4);
        },
        OpCode::SkipByteEqual { x, byte } | OpCode::SkipByteNotEqual { x, byte }
        | OpCode::LoadByte { x, byte } | OpCode::AddByte { x, byte } => {
            push_reg(&mut s, x);
            s.append(", ");
            push_hex(&mut s, byte as usize, 2);
        },
        OpCode::SkipEqual { x, y } => {
            push_reg(&mut s, x);
            s.append(", V");
            push_dec(&mut s, y);
        },
        OpCode::Load { x, y } | OpCode::Or { x, y } | OpCode::And { x, y }
        | OpCode::Xor { x, y } | OpCode::Add { x, y } | OpCode::Sub { x, y }
        | OpCode::SubReverse { x, y } | OpCode::SkipNotEqual { x, y } => {
            push_reg(&mut s, x);
            s.append(", ");
            push_reg(&mut s, y);
        },
        OpCode::ShiftRight { x } | OpCode::ShiftLeft { x } | OpCode::SkipKeyPressed { x }
        | OpCode::SkipNotPressed { x } => {
            push_reg(&mut s, x);
        },
        OpCode::LoadAddress { address } => {
            s.append("I, #");
            push_hex(&mut s, address, 4);
        },
        OpCode::JumpOffset { address } => {
            s.append("V0, #");
            push_hex(&mut s, address, 4);
        },
        OpCode::Random { x, byte } => {
            push_reg(&mut s, x);
            s.append(", #");
            push_hex(&mut s, byte as usize, 2);
        },
        OpCode::Draw { x, y, n } => {
            push_reg(&mut s, x);
            s.append(", ");
            push_reg(&mut s, y);
            s.append(", ");
            push_dec(&mut s, n as usize);
        },
        OpCode::LoadFromDelayTimer { x } => {
            push_reg(&mut s, x);
            s.append(", DT");
        },
        OpCode::WaitKey { x } => {
            push_reg(&mut s, x);
            s.append(", K");
        },
        OpCode::LoadDelayTimer { x } => {
            s.append("DT, ");
            push_reg(&mut s, x);
        },
        OpCode::LoadSoundTimer { x } => {
            s.append("ST, ");
            push_reg(&mut s, x);
        },
        OpCode::AddAddress { x } | OpCode::LoadFont { x } | OpCode::BCD { x } => {
            s.append("I, ");
            push_reg(&mut s, x);
        },
        OpCode::Save { x } => {
            s.append("[I], ");
            push_reg(&mut s, x);
        },
        OpCode::Restore { x } => {
            push_reg(&mut s, x);
            s.append(", [I]");
        },
    }
    assert(s@ =~= operands_spec(op));
    s
}

impl OpCode {
    /// Operands are in range: registers below 16, addresses below 4096,
    /// sprite heights below 16.
    pub open spec fn wf(self) -> bool {
        match self {
            OpCode::Jump { address } => address < 0x1000,
            OpCode::Call { address } => address < 0x1000,
            OpCode::LoadAddress { address } => address < 0x1000,
            OpCode::JumpOffset { address } => address < 0x1000,
            OpCode::SkipByteEqual { x, .. } => x < 16,
            OpCode::SkipByteNotEqual { x, .. } => x < 16,
            OpCode::LoadByte { x, .. } => x < 16,
            OpCode::AddByte { x, .. } => x < 16,
            OpCode::Random { x, .. } => x < 16,
            OpCode::SkipEqual { x, y } => x < 16 && y < 16,
            OpCode::SkipNotEqual { x, y } => x < 16 && y < 16,
            OpCode::Load { x, y } => x < 16 && y < 16,
            OpCode::Or { x, y } => x < 16 && y < 16,
            OpCode::And { x, y } => x < 16 && y < 16,
            OpCode::Xor { x, y } => x < 16 && y < 16,
            OpCode::Add { x, y } => x < 16 && y < 16,
            OpCode::Sub { x, y } => x < 16 && y < 16,
            OpCode::SubReverse { x, y } => x < 16 && y < 16,
            OpCode::Draw { x, y, n } => x < 16 && y < 16 && n < 16,
            OpCode::ShiftRight { x } => x < 16,
            OpCode::ShiftLeft { x } => x < 16,
            OpCode::SkipKeyPressed { x } => x < 16,
            OpCode::SkipNotPressed { x } => x < 16,
            OpCode::LoadFromDelayTimer { x } => x < 16,
            OpCode::WaitKey { x } => x < 16,
            OpCode::LoadDelayTimer { x } => x < 16,
            OpCode::LoadSoundTimer { x } => x < 16,
            OpCode::AddAddress { x } => x < 16,
            OpCode::LoadFont { x } => x < 16,
            OpCode::BCD { x } => x < 16,
            OpCode::Save { x } => x < 16,
            OpCode::Restore { x } => x < 16,
            _ => true,
        }
    }

    /// Decodes a 16-bit instruction word; a word outside the table becomes `Unknown`.
    pub fn decode(instruction: u16) -> (r: OpCode)
        ensures
            r == decode_spec(instruction),
            r.wf(),
    {
        let w = instruction;
        let address = (w & 0x0FFF) as usize;
        let byte = (w & 0x00FF) as u8;
        let x = ((w >> 8u16) & 0x000F) as usize;
        let y = ((w >> 4u16) & 0x000F) as usize;
        let n = (w & 0x000F) as u8;
        assert(w & 0x0FFF < 0x1000 && (w >> 8u16) & 0x000F < 16 && (w >> 4u16) & 0x000F < 16
            && w & 0x000F < 16) by (bit_vector);
        if w == 0x00E0 {
            OpCode::ClearScreen
        } else if w == 0x00EE {
            OpCode::Return
        } else if w & 0xF000 == 0x1000 {
            OpCode::Jump { address }
        } else if w & 0xF000 == 0x2000 {
            OpCode::Call { address }
        } else if w & 0xF000 == 0x3000 {
            OpCode::SkipByteEqual { x, byte }
        } else if w & 0xF000 == 0x4000 {
            OpCode::SkipByteNotEqual { x, byte }
        } else if w & 0xF00F == 0x5000 {
            OpCode::SkipEqual { x, y }
        } else if w & 0xF000 == 0x6000 {
            OpCode::LoadByte { x, byte }
        } else if w & 0xF000 == 0x7000 {
            OpCode::AddByte { x, byte }
        } else if w & 0xF00F == 0x8000 {
            OpCode::Load { x, y }
        } else if w & 0xF00F == 0x8001 {
            OpCode::Or { x, y }
        } else if w & 0xF00F == 0x8002 {
            OpCode::And { x, y }
        } else if w & 0xF00F == 0x8003 {
            OpCode::Xor { x, y }
        } else if w & 0xF00F == 0x8004 {
            OpCode::Add { x, y }
        } else if w & 0xF00F == 0x8005 {
            OpCode::Sub { x, y }
        } else if w & 0xF00F == 0x8006 {
            OpCode::ShiftRight { x }
        } else if w & 0xF00F == 0x8007 {
            OpCode::SubReverse { x, y }
        } else if w & 0xF00F == 0x800E {
            OpCode::ShiftLeft { x }
        } else if w & 0xF00F == 0x9000 {
            OpCode::SkipNotEqual { x, y }
        } else if w & 0xF000 == 0xA000 {
            OpCode::LoadAddress { address }
        } else if w & 0xF000 == 0xB000 {
            OpCode::JumpOffset { address }
        } else if w & 0xF000 == 0xC000 {
            OpCode::Random { x, byte }
        } else if w & 0xF000 == 0xD000 {
            OpCode::Draw { x, y, n }
        } else if w & 0xF0FF == 0xE09E {
            OpCode::SkipKeyPressed { x }
        } else if w & 0xF0FF == 0xE0A1 {
            OpCode::SkipNotPressed { x }
        } else if w & 0xF0FF == 0xF007 {
            OpCode::LoadFromDelayTimer { x }
        } else if w & 0xF0FF == 0xF00A {
            OpCode::WaitKey { x }
        } else if w & 0xF0FF == 0xF015 {
            OpCode::LoadDelayTimer { x }
        } else if w & 0xF0FF == 0xF018 {
            OpCode::LoadSoundTimer { x }
        } else if w & 0xF0FF == 0xF01E {
            OpCode::AddAddress { x }
        } else if w & 0xF0FF == 0xF029 {
            OpCode::LoadFont { x }
        } else if w & 0xF0FF == 0xF033 {
            OpCode::BCD { x }
        } else if w & 0xF0FF == 0xF055 {
            OpCode::Save { x }
        } else if w & 0xF0FF == 0xF065 {
            OpCode::Restore { x }
        } else {
            OpCode::Unknown { instruction: w }
        }
    }

    /// The mnemonic and the operand text of an instruction word; a word outside
    /// the table gives `???` and no operands.
    pub fn disassemble(instruction: u16) -> (r: (String, String))
        ensures
            r.0@ == mnemonic_spec(decode_spec(instruction)),
            r.1@ == operands_spec(decode_spec(instruction)),
    {
        let op = Self::decode(instruction);
        (String::from_str(mnemonic_text(op)), operand_text(op))
    }
}

} // verus!
