use invaders::memory::ROM_SIZE;
use invaders::processor::Processor;

fn cpu_at(code: &[(usize, u8)]) -> Processor {
    let mut rom = [0u8; ROM_SIZE];
    for &(addr, byte) in code {
        rom[addr] = byte;
    }
    Processor::new(rom)
}

#[test]
fn interrupt_delivery() {
    let mut cpu = Processor::new([0; ROM_SIZE]);
    cpu.ie = true;
    cpu.pc = 0x1234;
    cpu.sp = 0x2400;
    cpu.interrupt(2);
    assert_eq!(cpu.mem.read(0x23FE), 0x34);
    assert_eq!(cpu.mem.read(0x23FF), 0x12);
    assert_eq!(cpu.sp, 0x23FE);
    assert_eq!(cpu.pc, 0x10);
    assert!(!cpu.ie);
    cpu.interrupt(1);
    assert_eq!(cpu.sp, 0x23FE);
    assert_eq!(cpu.pc, 0x10);
}

#[test]
fn psw_round_trip() {
    let mut cpu = cpu_at(&[(0, 0xF5), (1, 0xF1)]);
    cpu.sp = 0x2400;
    cpu.a = 0xA5;
    cpu.cc.s = true;
    cpu.cc.z = false;
    cpu.cc.ac = true;
    cpu.cc.p = true;
    cpu.cc.cy = false;
    let flags = cpu.cc;
    assert_eq!(cpu.exec(), 11);
    assert_eq!(cpu.mem.read(0x23FF), 0xA5);
    assert_eq!(cpu.mem.read(0x23FE), 0x96);
    cpu.a = 0;
    cpu.cc = invaders::processor::Flags::new();
    assert_eq!(cpu.exec(), 10);
    assert_eq!(cpu.a, 0xA5);
    assert_eq!(cpu.cc, flags);
    assert_eq!(cpu.sp, 0x2400);
}

#[test]
fn push_pop_pairs() {
    // PUSH B, PUSH D, POP H, POP B
    let mut cpu = cpu_at(&[(0, 0xC5), (1, 0xD5), (2, 0xE1), (3, 0xC1)]);
    cpu.sp = 0x2400;
    cpu.b = 0x12;
    cpu.c = 0x34;
    cpu.d = 0x56;
    cpu.e = 0x78;
    cpu.exec();
    cpu.exec();
    assert_eq!(cpu.sp, 0x23FC);
    cpu.exec();
    assert_eq!((cpu.h, cpu.l), (0x56, 0x78));
    cpu.b = 0;
    cpu.c = 0;
    cpu.exec();
    assert_eq!((cpu.b, cpu.c), (0x12, 0x34));
    assert_eq!(cpu.sp, 0x2400);
}

#[test]
fn call_then_ret() {
    let mut cpu = cpu_at(&[(0x100, 0xCD), (0x101, 0x00), (0x102, 0x02), (0x200, 0xC9)]);
    cpu.pc = 0x100;
    cpu.sp = 0x2400;
    assert_eq!(cpu.exec(), 17);
    assert_eq!(cpu.pc, 0x200);
    assert_eq!(cpu.mem.read(0x23FF), 0x01);
    assert_eq!(cpu.mem.read(0x23FE), 0x03);
    assert_eq!(cpu.exec(), 10);
    assert_eq!(cpu.pc, 0x103);
    assert_eq!(cpu.sp, 0x2400);
}

#[test]
fn conditional_jumps_calls_returns() {
    // JZ 0x0010 ; at 0x10: CNZ 0x0020 ; CZ 0x0030 ; at 0x30: RNZ ; RZ
    let mut cpu = cpu_at(&[
        (0x00, 0xCA), (0x01, 0x10), (0x02, 0x00),
        (0x10, 0xC4), (0x11, 0x20), (0x12, 0x00),
        (0x13, 0xCC), (0x14, 0x30), (0x15, 0x00),
        (0x30, 0xC0), (0x31, 0xC8),
    ]);
    cpu.sp = 0x2400;
    cpu.exec();
    assert_eq!(cpu.pc, 0x03);
    cpu.pc = 0;
    cpu.cc.z = true;
    cpu.exec();
    assert_eq!(cpu.pc, 0x10);
    cpu.exec();
    assert_eq!(cpu.pc, 0x13);
    assert_eq!(cpu.sp, 0x2400);
    cpu.exec();
    assert_eq!(cpu.pc, 0x30);
    assert_eq!(cpu.sp, 0x23FE);
    cpu.exec();
    assert_eq!(cpu.pc, 0x31);
    cpu.exec();
    assert_eq!(cpu.pc, 0x16);
    assert_eq!(cpu.sp, 0x2400);
}

#[test]
fn restart_pushes_next_address() {
    let mut cpu = cpu_at(&[(0x40, 0xD7)]);
    cpu.pc = 0x40;
    cpu.sp = 0x2400;
    assert_eq!(cpu.exec(), 11);
    assert_eq!(cpu.pc, 0x10);
    assert_eq!(cpu.mem.read(0x23FE), 0x41);
    assert_eq!(cpu.mem.read(0x23FF), 0x00);
}

#[test]
fn rst_zero_goes_to_zero() {
    let mut cpu = cpu_at(&[(0x40, 0xC7)]);
    cpu.pc = 0x40;
    cpu.sp = 0x2400;
    cpu.exec();
    assert_eq!(cpu.pc, 0x00);
}

#[test]
fn halt_waits_for_interrupt() {
    // EI ; HLT
    let mut cpu = cpu_at(&[(0, 0xFB), (1, 0x76)]);
    cpu.sp = 0x2400;
    cpu.exec();
    assert!(cpu.ie);
    assert_eq!(cpu.exec(), 7);
    assert!(cpu.halted);
    assert_eq!(cpu.pc, 2);
    let ic = cpu.ic;
    assert_eq!(cpu.exec(), 4);
    assert_eq!(cpu.pc, 2);
    assert_eq!(cpu.ic, ic);
    cpu.interrupt(1);
    assert!(!cpu.halted);
    assert_eq!(cpu.pc, 8);
    assert_eq!(cpu.mem.read(0x23FE), 2);
}

#[test]
fn halt_with_interrupts_disabled_stays() {
    let mut cpu = cpu_at(&[(0, 0x76)]);
    cpu.exec();
    cpu.interrupt(2);
    assert!(cpu.halted);
    assert_eq!(cpu.exec(), 4);
    assert_eq!(cpu.pc, 1);
}

#[test]
fn data_transfer() {
    // LXI H,0x2400 ; MVI M,0x77 ; MOV A,M ; STA 0x2401 ; LHLD 0x2400 ; XCHG ; SHLD 0x2402
    let program = [
        0x21, 0x00, 0x24, 0x36, 0x77, 0x7E, 0x32, 0x01, 0x24, 0x2A, 0x00, 0x24, 0xEB, 0x22,
        0x02, 0x24,
    ];
    let mut rom = [0u8; ROM_SIZE];
    rom[..program.len()].copy_from_slice(&program);
    let mut cpu = Processor::new(rom);
    assert_eq!(cpu.exec(), 10);
    assert_eq!((cpu.h, cpu.l), (0x24, 0x00));
    assert_eq!(cpu.exec(), 10);
    assert_eq!(cpu.mem.read(0x2400), 0x77);
    assert_eq!(cpu.exec(), 7);
    assert_eq!(cpu.a, 0x77);
    assert_eq!(cpu.exec(), 13);
    assert_eq!(cpu.mem.read(0x2401), 0x77);
    assert_eq!(cpu.exec(), 16);
    assert_eq!((cpu.h, cpu.l), (0x77, 0x77));
    assert_eq!(cpu.exec(), 4);
    assert_eq!((cpu.d, cpu.e, cpu.h, cpu.l), (0x77, 0x77, 0x00, 0x00));
    cpu.h = 0x24;
    cpu.l = 0x11;
    assert_eq!(cpu.exec(), 16);
    assert_eq!(cpu.mem.read(0x2402), 0x11);
    assert_eq!(cpu.mem.read(0x2403), 0x24);
    assert_eq!(cpu.pc, 16);
}

#[test]
fn xthl_pchl_sphl() {
    let mut cpu = cpu_at(&[(0, 0xE3), (1, 0xF9), (2, 0xE9)]);
    cpu.sp = 0x2400;
    cpu.mem.write(0x2400, 0x34);
    cpu.mem.write(0x2401, 0x12);
    cpu.h = 0xAB;
    cpu.l = 0xCD;
    assert_eq!(cpu.exec(), 18);
    assert_eq!((cpu.h, cpu.l), (0x12, 0x34));
    assert_eq!(cpu.mem.read(0x2400), 0xCD);
    assert_eq!(cpu.mem.read(0x2401), 0xAB);
    cpu.exec();
    assert_eq!(cpu.sp, 0x1234);
    cpu.exec();
    assert_eq!(cpu.pc, 0x1234);
}

#[test]
fn rom_is_not_writable() {
    let mut cpu = cpu_at(&[(0, 0x32), (1, 0x10), (2, 0x00), (0x10, 0x99)]);
    cpu.a = 0x55;
    cpu.exec();
    assert_eq!(cpu.mem.read(0x10), 0x99);
    assert_eq!(cpu.mem.read(0x4000), 0);
    cpu.mem.write(0x3FFF, 7);
    assert_eq!(cpu.mem.read(0x3FFF), 7);
    cpu.mem.write(0x4000, 7);
    assert_eq!(cpu.mem.read(0x4000), 0);
}

#[test]
fn undocumented_opcodes_are_nops() {
    let mut cpu = cpu_at(&[(0, 0x08), (1, 0xCB), (2, 0xD9), (3, 0xDD)]);
    for pc in 1..=4u16 {
        assert_eq!(cpu.exec(), 4);
        assert_eq!(cpu.pc, pc);
    }
    assert_eq!(cpu.ic, 4);
}

#[test]
fn selectors_wrap_around() {
    let mut cpu = Processor::new([0; ROM_SIZE]);
    cpu.cc.s = true;
    cpu.cc.z = true;
    assert!(!cpu.get_ccc(8));
    assert!(cpu.get_ccc(9));
    assert!(cpu.get_ccc(15));
    cpu.b = 0x11;
    cpu.c = 0x22;
    cpu.a = 0x99;
    assert_eq!(cpu.get_reg(8), 0x11);
    assert_eq!(cpu.get_reg(15), 0x99);
    cpu.set_reg(9, 0x33);
    assert_eq!(cpu.c, 0x33);
    assert_eq!(cpu.get_reg_pair(4, false), 0x1133);
    assert_eq!(cpu.get_reg_pair(4, true), 0x1133);
    cpu.set_reg_pair(5, 0xABCD, false);
    assert_eq!((cpu.d, cpu.e), (0xAB, 0xCD));
    cpu.set_reg_pair(7, 0x1234, false);
    assert_eq!(cpu.sp, 0x1234);
}
