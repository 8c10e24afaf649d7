use invaders::opcode::Opcode;
use invaders::screen::{is_lit, pixel_position, Resolution};

#[test]
fn every_opcode_has_length_and_cycles() {
    for b in 0..=255u8 {
        let op = Opcode::new(&[b, 0x11, 0x22, 0x33], 0x100);
        assert!(op.len >= 1 && op.len <= 3);
        assert!([4, 5, 7, 10, 11, 13, 16, 17, 18].contains(&op.duration));
        assert_eq!(op.args.len(), op.len - 1);
        assert_eq!(op.index, 0x100);
        assert_eq!(op.opcode, b);
        assert!(!op.name.is_empty());
    }
}

#[test]
fn disassembles_names_and_operands() {
    let cases: [(u8, &str, usize, usize); 16] = [
        (0x00, "NOP", 1, 4),
        (0x01, "LXI BC,#", 3, 10),
        (0x12, "STAX DE", 1, 7),
        (0x2A, "LHLD", 3, 16),
        (0x36, "MVI M,#", 2, 10),
        (0x41, "MOV B,C", 1, 5),
        (0x76, "HLT", 1, 7),
        (0x86, "ADD M", 1, 7),
        (0xBF, "CMP A", 1, 4),
        (0xC0, "RNZ", 1, 5),
        (0xD3, "OUT", 2, 10),
        (0xE3, "XTHL", 1, 18),
        (0xF1, "POP PSW", 1, 10),
        (0xFC, "CM", 3, 11),
        (0xFE, "CPI #", 2, 7),
        (0xCF, "RST 01", 1, 11),
    ];
    for (b, name, len, cycles) in cases {
        let op = Opcode::new(&[b, 0x34, 0x12, 0], 0);
        assert_eq!(op.name, name);
        assert_eq!(op.len, len);
        assert_eq!(op.duration, cycles);
    }
    let op = Opcode::new(&[0xCD, 0x34, 0x12, 0x99], 0x20);
    assert_eq!(op.name, "CALL");
    assert_eq!(op.args, vec![0x34, 0x12]);
    let op = Opcode::new(&[0x3E, 0x7F, 0x12, 0x99], 0x20);
    assert_eq!(op.args, vec![0x7F]);
}

#[test]
fn pixel_layout() {
    assert_eq!(pixel_position(0, 0), (0, 255));
    assert_eq!(pixel_position(0, 7), (0, 248));
    assert_eq!(pixel_position(31, 7), (0, 0));
    assert_eq!(pixel_position(32, 0), (1, 255));
    assert_eq!(pixel_position(0x1BFF, 7), (223, 0));
    assert!(is_lit(0x80, 7));
    assert!(!is_lit(0x80, 6));
    let r = Resolution::new(224, 256, 3);
    assert_eq!((r.width, r.height, r.scale), (224, 256, 3));
}
