use bytecode_vm::decode::decode;

#[test]
fn decode_add_word() {
    assert_eq!(decode(0x8014), (8, 0, 1, 4, 0x014));
}

#[test]
fn decode_call_word() {
    assert_eq!(decode(0x2100), (2, 1, 0, 0, 0x100));
}

#[test]
fn decode_return_word() {
    assert_eq!(decode(0x00EE), (0, 0, 0xE, 0xE, 0x0EE));
}

#[test]
fn decode_halt_word() {
    assert_eq!(decode(0x0000), (0, 0, 0, 0, 0));
}

#[test]
fn decode_is_deterministic() {
    let words: Vec<u16> = vec![0x0000, 0x00EE, 0x2100, 0x8014, 0xFFFF, 0x1234];
    for w in words {
        assert_eq!(decode(w), decode(w));
    }
}

#[test]
fn decode_fields_are_nibbles() {
    let (c, x, y, d, nnn) = decode(0xFFFF);
    assert_eq!((c, x, y, d, nnn), (0xF, 0xF, 0xF, 0xF, 0xFFF));
}
