use ton_mixer::opcode::{generate_opcode, MixerOpcodes, OP_COLLECT, OP_FORK, OP_SPREAD};
use ton_mixer::types::MixerCollectionModes;

/// CRC-32 (IEEE) bit by bit, to hold the identifiers against.
fn crc32_reference(bytes: &[u8]) -> u32 {
    let mut crc: u32 = 0xFFFF_FFFF;
    for byte in bytes {
        crc ^= *byte as u32;
        for _ in 0..8 {
            crc = if crc & 1 == 1 { (crc >> 1) ^ 0xEDB8_8320 } else { crc >> 1 };
        }
    }
    crc ^ 0xFFFF_FFFF
}

#[test]
fn opcode_is_the_crc32_of_the_name() {
    assert_eq!(generate_opcode("123456789"), 0xCBF4_3926);
    assert_eq!(generate_opcode(""), 0);
    assert_eq!(generate_opcode("op::spread"), crc32_reference(b"op::spread"));
    assert_eq!(generate_opcode("op::collect"), crc32_reference(b"op::collect"));
    assert_eq!(generate_opcode("op::fork"), crc32_reference(b"op::fork"));
}

#[test]
fn opcode_is_stable_over_calls() {
    for name in ["op::spread", "op::collect", "op::fork", "", "x", "op::spread "] {
        let first = generate_opcode(name);
        let second = generate_opcode(name);
        assert_eq!(first, second);
        let copy = format!("{}", name);
        assert_eq!(first, generate_opcode(&copy));
    }
}

#[test]
fn well_known_opcodes() {
    let codes = MixerOpcodes::new();
    assert_eq!(codes.spread, generate_opcode(OP_SPREAD));
    assert_eq!(codes.collect, generate_opcode(OP_COLLECT));
    assert_eq!(codes.fork, generate_opcode(OP_FORK));
    assert_eq!(OP_SPREAD, "op::spread");
    assert_eq!(OP_COLLECT, "op::collect");
    assert_eq!(OP_FORK, "op::fork");
    assert_ne!(codes.spread, codes.collect);
    assert_ne!(codes.spread, codes.fork);
    assert_ne!(codes.collect, codes.fork);
    let again = MixerOpcodes::new();
    assert_eq!(codes.spread, again.spread);
    assert_eq!(codes.collect, again.collect);
    assert_eq!(codes.fork, again.fork);
}

#[test]
fn collection_modes_are_fixed() {
    let modes = MixerCollectionModes::new();
    assert_eq!(modes.current_message_ton_balance, 0);
    assert_eq!(modes.all_ton_balance, 1);
    assert_eq!(modes.available_ton_balance, 2);
    assert_eq!(modes.given_jetton_balance, 3);
}
