use invaders::memory::ROM_SIZE;
use invaders::processor::Processor;

fn cpu_with(program: &[u8]) -> Processor {
    let mut rom = [0u8; ROM_SIZE];
    rom[..program.len()].copy_from_slice(program);
    Processor::new(rom)
}

#[test]
fn test_add() {
    let a = 200;
    let b = 88;
    let c = (a as u16 + b as u16) as u8;
    let mut state = Processor::new([0; ROM_SIZE]);
    state.a = a;
    state.add(b, false);
    assert_eq!(state.a, c);
}

#[test]
fn test_adc() {
    let a = 200;
    let b = 88;
    let c = (a as u16 + b as u16 + 1) as u8;
    let mut state = Processor::new([0; ROM_SIZE]);
    state.a = a;
    state.cc.cy = true;
    state.add(b, true);
    assert_eq!(state.a, c);
}

#[test]
fn test_sub() {
    let a: i8 = 20;
    let b: i8 = 88;
    let c = a - b;
    let mut state = Processor::new([0; ROM_SIZE]);
    state.a = a as u8;
    state.add((!b + 1) as u8, false);
    println!("{:#?}", state.cc);
    assert_eq!(state.a, c as u8);
}

#[test]
fn test_sbb() {
    let a: i8 = 20;
    let b: i8 = 88;
    // ADC adds the incoming carry on top of the two's complement of b.
    let c = a - b + 1;
    let mut state = Processor::new([0; ROM_SIZE]);
    state.a = a as u8;
    state.cc.cy = true;
    state.add((!b + 1) as u8, true);
    println!("{:#?}", state.cc);
    assert_eq!(state.a, c as u8);
}

#[test]
fn add_wraps_and_sets_carry() {
    let mut cpu = cpu_with(&[0x80]);
    cpu.a = 0xC8;
    cpu.b = 0x58;
    assert_eq!(cpu.exec(), 4);
    assert_eq!(cpu.a, 0x20);
    assert!(cpu.cc.cy);
    assert!(!cpu.cc.z);
    assert!(!cpu.cc.s);
    assert!(!cpu.cc.p);
    assert_eq!(cpu.pc, 1);
}

#[test]
fn sub_borrows() {
    let mut cpu = cpu_with(&[0x90]);
    cpu.a = 0x14;
    cpu.b = 0x58;
    cpu.exec();
    assert_eq!(cpu.a, 0xBC);
    assert!(cpu.cc.cy);
    assert!(cpu.cc.s);
    assert!(!cpu.cc.z);
}

#[test]
fn sbb_borrows_the_carry() {
    let mut cpu = cpu_with(&[0x98]);
    cpu.a = 0x00;
    cpu.b = 0xFF;
    cpu.cc.cy = true;
    cpu.exec();
    assert_eq!(cpu.a, 0x00);
    assert!(cpu.cc.cy);
    assert!(cpu.cc.z);
}

#[test]
fn rotate_through_carry() {
    let mut cpu = cpu_with(&[0x17, 0x1F]);
    cpu.a = 0x80;
    cpu.cc.cy = false;
    cpu.exec();
    assert_eq!(cpu.a, 0x00);
    assert!(cpu.cc.cy);
    cpu.exec();
    assert_eq!(cpu.a, 0x80);
    assert!(!cpu.cc.cy);
}

#[test]
fn rotate_with_wrap() {
    let mut cpu = cpu_with(&[0x07, 0x0F, 0x0F]);
    cpu.a = 0x81;
    cpu.exec();
    assert_eq!(cpu.a, 0x03);
    assert!(cpu.cc.cy);
    cpu.exec();
    assert_eq!(cpu.a, 0x81);
    assert!(cpu.cc.cy);
    cpu.exec();
    assert_eq!(cpu.a, 0xC0);
    assert!(cpu.cc.cy);
}

#[test]
fn alu_flags_follow_the_result() {
    // ANA B, XRA B, ORA B, ADI, INR A, DCR A
    let cases: [(u8, u8, u8); 4] = [(0xA0, 0xF0, 0x0F), (0xA8, 0x5A, 0x5A), (0xB0, 0x03, 0x80), (0xC6, 0x7F, 0x01)];
    for (op, a, b) in cases {
        let mut cpu = cpu_with(&[op, b]);
        cpu.a = a;
        cpu.b = b;
        cpu.cc.cy = true;
        cpu.exec();
        assert_eq!(cpu.cc.z, cpu.a == 0);
        assert_eq!(cpu.cc.s, cpu.a & 0x80 != 0);
        assert_eq!(cpu.cc.p, cpu.a.count_ones() % 2 == 0);
    }
    let mut cpu = cpu_with(&[0x3C, 0x3D]);
    cpu.a = 0xFF;
    cpu.exec();
    assert_eq!(cpu.a, 0);
    assert!(cpu.cc.z && cpu.cc.p && !cpu.cc.s);
    cpu.exec();
    assert_eq!(cpu.a, 0xFF);
    assert!(!cpu.cc.z && cpu.cc.p && cpu.cc.s);
}

#[test]
fn logic_clears_carry() {
    let mut cpu = cpu_with(&[0xE6, 0x0F]);
    cpu.a = 0x3C;
    cpu.cc.cy = true;
    assert_eq!(cpu.exec(), 7);
    assert_eq!(cpu.a, 0x0C);
    assert!(!cpu.cc.cy);
    assert!(cpu.cc.p);
    assert_eq!(cpu.pc, 2);
}

#[test]
fn cmp_and_sui_agree() {
    for (a, x) in [(0x14u8, 0x58u8), (0x58, 0x14), (0x30, 0x30), (0x00, 0x01)] {
        let mut cmp = cpu_with(&[0xB8]);
        cmp.a = a;
        cmp.b = x;
        cmp.exec();
        let mut sui = cpu_with(&[0xD6, x]);
        sui.a = a;
        sui.exec();
        let mut cpi = cpu_with(&[0xFE, x]);
        cpi.a = a;
        cpi.exec();
        assert_eq!(cmp.cc, sui.cc);
        assert_eq!(cpi.cc, sui.cc);
        assert_eq!(cmp.a, a);
        assert_eq!(cpi.a, a);
        assert_eq!(sui.a, a.wrapping_sub(x));
        assert_eq!(sui.cc.cy, a < x);
    }
}

#[test]
fn dad_changes_only_carry() {
    let mut cpu = cpu_with(&[0x09]);
    cpu.h = 0xFF;
    cpu.l = 0xFF;
    cpu.b = 0x00;
    cpu.c = 0x01;
    cpu.cc.s = true;
    cpu.cc.z = true;
    cpu.cc.p = true;
    assert_eq!(cpu.exec(), 10);
    assert_eq!((cpu.h, cpu.l), (0, 0));
    assert!(cpu.cc.cy);
    assert!(cpu.cc.s && cpu.cc.z && cpu.cc.p && !cpu.cc.ac);
    assert_eq!((cpu.b, cpu.c), (0, 1));
}

#[test]
fn dad_hl_doubles() {
    let mut cpu = cpu_with(&[0x29]);
    cpu.h = 0x12;
    cpu.l = 0x34;
    cpu.exec();
    assert_eq!((cpu.h, cpu.l), (0x24, 0x68));
    assert!(!cpu.cc.cy);
}

#[test]
fn inx_then_dcx_restores_the_pair() {
    let mut cpu = cpu_with(&[0x03, 0x0B, 0x33, 0x3B]);
    cpu.b = 0xFF;
    cpu.c = 0xFF;
    cpu.sp = 0xFFFF;
    cpu.exec();
    assert_eq!((cpu.b, cpu.c), (0, 0));
    cpu.exec();
    assert_eq!((cpu.b, cpu.c), (0xFF, 0xFF));
    cpu.exec();
    assert_eq!(cpu.sp, 0);
    cpu.exec();
    assert_eq!(cpu.sp, 0xFFFF);
    assert_eq!(cpu.cc, invaders::processor::Flags::new());
}

#[test]
fn inr_and_dcr_keep_carry() {
    let mut cpu = cpu_with(&[0x04, 0x05, 0x05]);
    cpu.cc.cy = true;
    cpu.exec();
    assert_eq!(cpu.b, 1);
    cpu.exec();
    assert_eq!(cpu.b, 0);
    assert!(cpu.cc.z);
    cpu.exec();
    assert_eq!(cpu.b, 0xFF);
    assert!(cpu.cc.cy);
    assert!(cpu.cc.s);
}

#[test]
fn complement_and_carry_ops() {
    let mut cpu = cpu_with(&[0x2F, 0x37, 0x3F]);
    cpu.a = 0x5A;
    cpu.exec();
    assert_eq!(cpu.a, 0xA5);
    cpu.exec();
    assert!(cpu.cc.cy);
    cpu.exec();
    assert!(!cpu.cc.cy);
}
