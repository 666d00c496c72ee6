use ox_chip8::instruction::{decode, Instruction};

#[test]
fn decode_system_family() {
    assert_eq!(decode(0x00E0), Some(Instruction::ClearScreen));
    assert_eq!(decode(0x00EE), Some(Instruction::Return));
    assert_eq!(decode(0x0000), Some(Instruction::MachineCall { address: 0x000 }));
    assert_eq!(decode(0x0123), Some(Instruction::MachineCall { address: 0x123 }));
    assert_eq!(decode(0x01E0), Some(Instruction::MachineCall { address: 0x1E0 }));
    assert_eq!(decode(0x0FEE), Some(Instruction::MachineCall { address: 0xFEE }));
}

#[test]
fn decode_jumps_and_calls() {
    assert_eq!(decode(0x1ABC), Some(Instruction::Jump { address: 0xABC }));
    assert_eq!(decode(0x2FFF), Some(Instruction::Call { address: 0xFFF }));
    assert_eq!(decode(0xA001), Some(Instruction::LoadIndex { address: 0x001 }));
    assert_eq!(decode(0xB800), Some(Instruction::JumpOffset { address: 0x800 }));
}

#[test]
fn decode_immediates() {
    assert_eq!(decode(0x3A12), Some(Instruction::SkipEqualImmediate { x: 0xA, value: 0x12 }));
    assert_eq!(decode(0x4BFF), Some(Instruction::SkipNotEqualImmediate { x: 0xB, value: 0xFF }));
    assert_eq!(decode(0x6C00), Some(Instruction::LoadImmediate { x: 0xC, value: 0x00 }));
    assert_eq!(decode(0x7D80), Some(Instruction::AddImmediate { x: 0xD, value: 0x80 }));
    assert_eq!(decode(0xCE0F), Some(Instruction::Random { x: 0xE, value: 0x0F }));
}

#[test]
fn decode_register_pairs() {
    assert_eq!(decode(0x5120), Some(Instruction::SkipEqual { x: 1, y: 2 }));
    assert_eq!(decode(0x9EF0), Some(Instruction::SkipNotEqual { x: 0xE, y: 0xF }));
    assert_eq!(decode(0x8120), Some(Instruction::Move { x: 1, y: 2 }));
    assert_eq!(decode(0x8121), Some(Instruction::Or { x: 1, y: 2 }));
    assert_eq!(decode(0x8122), Some(Instruction::And { x: 1, y: 2 }));
    assert_eq!(decode(0x8123), Some(Instruction::Xor { x: 1, y: 2 }));
    assert_eq!(decode(0x8124), Some(Instruction::Add { x: 1, y: 2 }));
    assert_eq!(decode(0x8125), Some(Instruction::Subtract { x: 1, y: 2 }));
    assert_eq!(decode(0x8126), Some(Instruction::ShiftRight { x: 1, y: 2 }));
    assert_eq!(decode(0x8127), Some(Instruction::SubtractFrom { x: 1, y: 2 }));
    assert_eq!(decode(0x812E), Some(Instruction::ShiftLeft { x: 1, y: 2 }));
    assert_eq!(decode(0xD12F), Some(Instruction::Draw { x: 1, y: 2, rows: 0xF }));
    assert_eq!(decode(0xDFE0), Some(Instruction::Draw { x: 0xF, y: 0xE, rows: 0 }));
}

#[test]
fn decode_keys_and_miscellany() {
    assert_eq!(decode(0xE39E), Some(Instruction::SkipKeyDown { x: 3 }));
    assert_eq!(decode(0xE3A1), Some(Instruction::SkipKeyUp { x: 3 }));
    assert_eq!(decode(0xF407), Some(Instruction::ReadDelay { x: 4 }));
    assert_eq!(decode(0xF40A), Some(Instruction::WaitKey { x: 4 }));
    assert_eq!(decode(0xF415), Some(Instruction::SetDelay { x: 4 }));
    assert_eq!(decode(0xF418), Some(Instruction::SetSound { x: 4 }));
    assert_eq!(decode(0xF41E), Some(Instruction::AddIndex { x: 4 }));
    assert_eq!(decode(0xF429), Some(Instruction::FontAddress { x: 4 }));
    assert_eq!(decode(0xF433), Some(Instruction::StoreDecimal { x: 4 }));
    assert_eq!(decode(0xF455), Some(Instruction::StoreRegisters { x: 4 }));
    assert_eq!(decode(0xF465), Some(Instruction::LoadRegisters { x: 4 }));
}

#[test]
fn decode_refuses_words_outside_the_table() {
    assert_eq!(decode(0x5001), None);
    assert_eq!(decode(0x512F), None);
    assert_eq!(decode(0x9121), None);
    for n in [0x8u16, 0x9, 0xA, 0xB, 0xC, 0xD, 0xF] {
        assert_eq!(decode(0x8120 | n), None);
    }
    assert_eq!(decode(0xE000), None);
    assert_eq!(decode(0xE39F), None);
    assert_eq!(decode(0xE3A0), None);
    assert_eq!(decode(0xF400), None);
    assert_eq!(decode(0xF466), None);
    assert_eq!(decode(0xFFFF), None);
}

#[test]
fn decode_accepts_exactly_the_table() {
    let mut supported = 0u32;
    for word in 0..=0xFFFFu16 {
        if decode(word).is_some() {
            supported += 1;
        }
    }
    // families 0-4, 6, 7, A-D whole; 5 and 9 with last digit 0; 8 with nine
    // last digits; E with two low bytes; F with nine low bytes
    let expected = 11 * 4096 + 2 * 256 + 9 * 256 + 2 * 16 + 9 * 16;
    assert_eq!(supported, expected);
}
