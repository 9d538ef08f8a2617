use vstd::prelude::*;

verus! {

/// A decoded instruction. Each variant carries only the operand fields it
/// needs: register indices `x` and `y` (0..=15), an 8-bit immediate `nn`,
/// a 12-bit address `nnn` and a 4-bit count `n`.
#[derive(Clone, Copy, Debug, PartialEq, Eq, Structural)]
pub enum OpCode {
    /// `0NNN`: call of a native routine, treated as a shutdown request.
    MachineCall { nnn: u16 },
    /// `00E0`
    ClearScreen,
    /// `00EE`
    Return,
    /// `1NNN`
    Jump { nnn: u16 },
    /// `2NNN`
    Call { nnn: u16 },
    /// `3XNN`
    SkipIfEqual { x: u8, nn: u8 },
    /// `4XNN`
    SkipIfNotEqual { x: u8, nn: u8 },
    /// `5XY0`
    SkipIfRegistersEqual { x: u8, y: u8 },
    /// `6XNN`
    Load { x: u8, nn: u8 },
    /// `7XNN`
    AddImmediate { x: u8, nn: u8 },
    /// `8XY0`
    Assign { x: u8, y: u8 },
    /// `8XY1`
    Or { x: u8, y: u8 },
    /// `8XY2`
    And { x: u8, y: u8 },
    /// `8XY3`
    Xor { x: u8, y: u8 },
    /// `8XY4`
    AddWithCarry { x: u8, y: u8 },
    /// `8XY5`
    Subtract { x: u8, y: u8 },
    /// `8XY6`
    ShiftRight { x: u8 },
    /// `8XY7`
    ReverseSubtract { x: u8, y: u8 },
    /// `8XYE`
    ShiftLeft { x: u8 },
    /// `9XY0`
    SkipIfRegistersNotEqual { x: u8, y: u8 },
    /// `ANNN`
    SetIndex { nnn: u16 },
    /// `BNNN`
    JumpWithOffset { nnn: u16 },
    /// `CXNN`
    Random { x: u8, nn: u8 },
    /// `DXYN`
    Draw { x: u8, y: u8, n: u8 },
    /// `EX9E`
    SkipIfKeyPressed { x: u8 },
    /// `EXA1`
    SkipIfKeyNotPressed { x: u8 },
    /// `FX07`
    ReadDelayTimer { x: u8 },
    /// `FX0A`
    WaitForKey { x: u8 },
    /// `FX15`
    SetDelayTimer { x: u8 },
    /// `FX18`
    SetSoundTimer { x: u8 },
    /// `FX1E`
    AddToIndex { x: u8 },
    /// `FX29`
    SetIndexToGlyph { x: u8 },
    /// `FX33`
    StoreDecimalDigits { x: u8 },
    /// `FX55`
    StoreRegisters { x: u8 },
    /// `FX65`
    LoadRegisters { x: u8 },
}

/// Bits 8..=11 of an instruction word.
pub open spec fn field_x(w: u16) -> u8 {
    ((w / 256) % 16) as u8
}

/// Bits 4..=7 of an instruction word.
pub open spec fn field_y(w: u16) -> u8 {
    ((w / 16) % 16) as u8
}

/// Bits 0..=3 of an instruction word.
pub open spec fn field_n(w: u16) -> u8 {
    (w % 16) as u8
}

/// Bits 0..=7 of an instruction word.
pub open spec fn field_nn(w: u16) -> u8 {
    (w % 256) as u8
}

/// Bits 0..=11 of an instruction word.
pub open spec fn field_nnn(w: u16) -> u16 {
    (w % 4096) as u16
}

/// The arithmetic/logic group `8XY?`, selected by the low nibble.
pub open spec fn decode_alu(x: u8, y: u8, n: u8) -> Option<OpCode> {
    if n == 0x0 {
        Some(OpCode::Assign { x, y })
    } else if n == 0x1 {
        Some(OpCode::Or { x, y })
    } else if n == 0x2 {
        Some(OpCode::And { x, y })
    } else if n == 0x3 {
        Some(OpCode::Xor { x, y })
    } else if n == 0x4 {
        Some(OpCode::AddWithCarry { x, y })
    } else if n == 0x5 {
        Some(OpCode::Subtract { x, y })
    } else if n == 0x6 {
        Some(OpCode::ShiftRight { x })
    } else if n == 0x7 {
        Some(OpCode::ReverseSubtract { x, y })
    } else if n == 0xE {
        Some(OpCode::ShiftLeft { x })
    } else {
        None
    }
}

/// The group `FX??`, selected by the low byte.
pub open spec fn decode_misc(x: u8, nn: u8) -> Option<OpCode> {
    if nn == 0x07 {
        Some(OpCode::ReadDelayTimer { x })
    } else if nn == 0x0A {
        Some(OpCode::WaitForKey { x })
    } else if nn == 0x15 {
        Some(OpCode::SetDelayTimer { x })
    } else if nn == 0x18 {
        Some(OpCode::SetSoundTimer { x })
    } else if nn == 0x1E {
        Some(OpCode::AddToIndex { x })
    } else if nn == 0x29 {
        Some(OpCode::SetIndexToGlyph { x })
    } else if nn == 0x33 {
        Some(OpCode::StoreDecimalDigits { x })
    } else if nn == 0x55 {
        Some(OpCode::StoreRegisters { x })
    } else if nn == 0x65 {
        Some(OpCode::LoadRegisters { x })
    } else {
        None
    }
}

/// The instruction that a word encodes, or `None` for a word that matches
/// no known opcode. `00E0` and `00EE` are matched exactly before the rest of
/// group 0; the top nibble selects the group, and groups 5, 8, 9, E and F
/// also fix their low nibble or low byte.
pub open spec fn decode_spec(w: u16) -> Option<OpCode> {
    let group = w / 4096;
    let x = field_x(w);
    let y = field_y(w);
    let n = field_n(w);
    let nn = field_nn(w);
    let nnn = field_nnn(w);
    if w == 0x00E0 {
        Some(OpCode::ClearScreen)
    } else if w == 0x00EE {
        Some(OpCode::Return)
    } else if group == 0x0 {
        Some(OpCode::MachineCall { nnn })
    } else if group == 0x1 {
        Some(OpCode::Jump { nnn })
    } else if group == 0x2 {
        Some(OpCode::Call { nnn })
    } else if group == 0x3 {
        Some(OpCode::SkipIfEqual { x, nn })
    } else if group == 0x4 {
        Some(OpCode::SkipIfNotEqual { x, nn })
    } else if group == 0x5 {
        if n == 0 {
            Some(OpCode::SkipIfRegistersEqual { x, y })
        } else {
            None
        }
    } else if group == 0x6 {
        Some(OpCode::Load { x, nn })
    } else if group == 0x7 {
        Some(OpCode::AddImmediate { x, nn })
    } else if group == 0x8 {
        decode_alu(x, y, n)
    } else if group == 0x9 {
        if n == 0 {
            Some(OpCode::SkipIfRegistersNotEqual { x, y })
        } else {
            None
        }
    } else if group == 0xA {
        Some(OpCode::SetIndex { nnn })
    } else if group == 0xB {
        Some(OpCode::JumpWithOffset { nnn })
    } else if group == 0xC {
        Some(OpCode::Random { x, nn })
    } else if group == 0xD {
        Some(OpCode::Draw { x, y, n })
    } else if group == 0xE {
        if nn == 0x9E {
            Some(OpCode::SkipIfKeyPressed { x })
        } else if nn == 0xA1 {
            Some(OpCode::SkipIfKeyNotPressed { x })
        } else {
            None
        }
    } else {
        decode_misc(x, nn)
    }
}

impl OpCode {
    /// Register indices name one of the sixteen registers, counts fit a
    /// nibble and addresses fit twelve bits.
    pub open spec fn wf(self) -> bool {
        match self {
            OpCode::MachineCall { nnn } => nnn < 4096,
            OpCode::ClearScreen => true,
            OpCode::Return => true,
            OpCode::Jump { nnn } => nnn < 4096,
            OpCode::Call { nnn } => nnn < 4096,
            OpCode::SkipIfEqual { x, nn } => x < 16,
            OpCode::SkipIfNotEqual { x, nn } => x < 16,
            OpCode::SkipIfRegistersEqual { x, y } => x < 16 && y < 16,
            OpCode::Load { x, nn } => x < 16,
            OpCode::AddImmediate { x, nn } => x < 16,
            OpCode::Assign { x, y } => x < 16 && y < 16,
            OpCode::Or { x, y } => x < 16 && y < 16,
            OpCode::And { x, y } => x < 16 && y < 16,
            OpCode::Xor { x, y } => x < 16 && y < 16,
            OpCode::AddWithCarry { x, y } => x < 16 && y < 16,
            OpCode::Subtract { x, y } => x < 16 && y < 16,
            OpCode::ShiftRight { x } => x < 16,
            OpCode::ReverseSubtract { x, y } => x < 16 && y < 16,
            OpCode::ShiftLeft { x } => x < 16,
            OpCode::SkipIfRegistersNotEqual { x, y } => x < 16 && y < 16,
            OpCode::SetIndex { nnn } => nnn < 4096,
            OpCode::JumpWithOffset { nnn } => nnn < 4096,
            OpCode::Random { x, nn } => x < 16,
            OpCode::Draw { x, y, n } => x < 16 && y < 16 && n < 16,
            OpCode::SkipIfKeyPressed { x } => x < 16,
            OpCode::SkipIfKeyNotPressed { x } => x < 16,
            OpCode::ReadDelayTimer { x } => x < 16,
            OpCode::WaitForKey { x } => x < 16,
            OpCode::SetDelayTimer { x } => x < 16,
            OpCode::SetSoundTimer { x } => x < 16,
            OpCode::AddToIndex { x } => x < 16,
            OpCode::SetIndexToGlyph { x } => x < 16,
            OpCode::StoreDecimalDigits { x } => x < 16,
            OpCode::StoreRegisters { x } => x < 16,
            OpCode::LoadRegisters { x } => x < 16,
        }
    }

    /// Decodes one 16-bit instruction word; `None` where the word matches
    /// no known opcode.
    pub fn decode(word: u16) -> (r: Option<OpCode>)
        ensures
            r == decode_spec(word),
            r matches Some(op) ==> op.wf(),
    {
        proof {
            lemma_fields(word);
        }
        let group: u16 = word >> 12;
        let x: u8 = ((word >> 8) & 0xF) as u8;
        let y: u8 = ((word >> 4) & 0xF) as u8;
        let n: u8 = (word & 0xF) as u8;
        let nn: u8 = (word & 0xFF) as u8;
        let nnn: u16 = word & 0xFFF;
        if word == 0x00E0 {
            Some(OpCode::ClearScreen)
        } else if word == 0x00EE {
            Some(OpCode::Return)
        } else if group == 0x0 {
            Some(OpCode::MachineCall { nnn })
        } else if group == 0x1 {
            Some(OpCode::Jump { nnn })
        } else if group == 0x2 {
            Some(OpCode::Call { nnn })
        } else if group == 0x3 {
            Some(OpCode::SkipIfEqual { x, nn })
        } else if group == 0x4 {
            Some(OpCode::SkipIfNotEqual { x, nn })
        } else if group == 0x5 {
            if n == 0 {
                Some(OpCode::SkipIfRegistersEqual { x, y })
            } else {
                None
            }
        } else if group == 0x6 {
            Some(OpCode::Load { x, nn })
        } else if group == 0x7 {
            Some(OpCode::AddImmediate { x, nn })
        } else if group == 0x8 {
            Self::decode_alu(x, y, n)
        } else if group == 0x9 {
            if n == 0 {
                Some(OpCode::SkipIfRegistersNotEqual { x, y })
            } else {
                None
            }
        } else if group == 0xA {
            Some(OpCode::SetIndex { nnn })
        } else if group == 0xB {
            Some(OpCode::JumpWithOffset { nnn })
        } else if group == 0xC {
            Some(OpCode::Random { x, nn })
        } else if group == 0xD {
            Some(OpCode::Draw { x, y, n })
        } else if group == 0xE {
            if nn == 0x9E {
                Some(OpCode::SkipIfKeyPressed { x })
            } else if nn == 0xA1 {
                Some(OpCode::SkipIfKeyNotPressed { x })
            } else {
                None
            }
        } else {
            Self::decode_misc(x, nn)
        }
    }

    fn decode_alu(x: u8, y: u8, n: u8) -> (r: Option<OpCode>)
        ensures
            r == decode_alu(x, y, n),
    {
        if n == 0x0 {
            Some(OpCode::Assign { x, y })
        } else if n == 0x1 {
            Some(OpCode::Or { x, y })
        } else if n == 0x2 {
            Some(OpCode::And { x, y })
        } else if n == 0x3 {
            Some(OpCode::Xor { x, y })
        } else if n == 0x4 {
            Some(OpCode::AddWithCarry { x, y })
        } else if n == 0x5 {
            Some(OpCode::Subtract { x, y })
        } else if n == 0x6 {
            Some(OpCode::ShiftRight { x })
        } else if n == 0x7 {
            Some(OpCode::ReverseSubtract { x, y })
        } else if n == 0xE {
            Some(OpCode::ShiftLeft { x })
        } else {
            None
        }
    }

    fn decode_misc(x: u8, nn: u8) -> (r: Option<OpCode>)
        ensures
            r == decode_misc(x, nn),
    {
        if nn == 0x07 {
            Some(OpCode::ReadDelayTimer { x })
        } else if nn == 0x0A {
            Some(OpCode::WaitForKey { x })
        } else if nn == 0x15 {
            Some(OpCode::SetDelayTimer { x })
        } else if nn == 0x18 {
            Some(OpCode::SetSoundTimer { x })
        } else if nn == 0x1E {
            Some(OpCode::AddToIndex { x })
        } else if nn == 0x29 {
            Some(OpCode::SetIndexToGlyph { x })
        } else if nn == 0x33 {
            Some(OpCode::StoreDecimalDigits { x })
        } else if nn == 0x55 {
            Some(OpCode::StoreRegisters { x })
        } else if nn == 0x65 {
            Some(OpCode::LoadRegisters { x })
        } else {
            None
        }
    }
}

/// The masks and shifts that the decoder uses pick the same fields as the
/// arithmetic definitions above.
proof fn lemma_fields(w: u16)
    ensures
        w >> 12u16 == w / 4096,
        (w >> 8u16) & 0xFu16 == (w / 256) % 16,
        (w >> 4u16) & 0xFu16 == (w / 16) % 16,
        w & 0xFu16 == w % 16,
        w & 0xFFu16 == w % 256,
        w & 0xFFFu16 == w % 4096,
{
    assert(w >> 12u16 == w / 4096) by (bit_vector);
    assert((w >> 8u16) & 0xFu16 == (w / 256) % 16) by (bit_vector);
    assert((w >> 4u16) & 0xFu16 == (w / 16) % 16) by (bit_vector);
    assert(w & 0xFu16 == w % 16) by (bit_vector);
    assert(w & 0xFFu16 == w % 256) by (bit_vector);
    assert(w & 0xFFFu16 == w % 4096) by (bit_vector);
}

} // verus!
