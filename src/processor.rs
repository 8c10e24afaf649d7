use vstd::prelude::*;

use crate::memory::{mem_read, mem_write, Memory, MEM_SIZE, RAM_SIZE, ROM_SIZE};
use crate::opcode::{decode, decode_op, instr_cycles, instr_len, Instr};

verus! {

/// Register-pair selector of HL.
pub const HL: u8 = 0x02;

/// Cycles reported for each call of `exec` while the processor is halted.
pub const HALT_IDLE_CYCLES: usize = 4;

/// The five condition flags.
#[derive(Debug, Clone, Copy, PartialEq, Eq, Structural)]
pub struct Flags {
    pub s: bool,
    pub z: bool,
    pub ac: bool,
    pub p: bool,
    pub cy: bool,
}

impl Flags {
    /// All flags cleared.
    pub fn new() -> (r: Flags)
        ensures
            r == (Flags { s: false, z: false, ac: false, p: false, cy: false }),
    {
        Flags { s: false, z: false, ac: false, p: false, cy: false }
    }
}

/// Number of set bits of `x`.
pub open spec fn popcount(x: nat) -> nat
    decreases x,
{
    if x == 0 {
        0
    } else {
        x % 2 + popcount(x / 2)
    }
}

/// Whether `v` has an even number of set bits.
pub open spec fn even_parity(v: u8) -> bool {
    popcount(v as nat) % 2 == 0
}

/// Flags after an operation whose result byte is `v`: S, Z and P follow `v`; AC and CY stay.
pub open spec fn result_flags(f: Flags, v: u8) -> Flags {
    Flags { s: v & 0x80 != 0, z: v == 0, p: even_parity(v), ..f }
}

/// The flag byte of the PSW, bits `S Z 0 AC 0 P 1 CY` from the top.
pub open spec fn psw_byte(f: Flags) -> u8 {
    (if f.s { 0x80u8 } else { 0u8 }) | (if f.z { 0x40u8 } else { 0u8 }) | (if f.ac {
        0x10u8
    } else {
        0u8
    }) | (if f.p { 0x04u8 } else { 0u8 }) | 0x02u8 | (if f.cy { 0x01u8 } else { 0u8 })
}

/// The flags that a PSW flag byte holds; its constant bits are ignored.
pub open spec fn unpack_flags(b: u8) -> Flags {
    Flags { s: b & 0x80 != 0, z: b & 0x40 != 0, ac: b & 0x10 != 0, p: b & 0x04 != 0, cy: b & 0x01 != 0 }
}

/// A 16-bit value from its high and low bytes.
pub open spec fn join(hi: u8, lo: u8) -> u16 {
    (hi as int * 256 + lo as int) as u16
}

/// High byte of a 16-bit value.
pub open spec fn high(v: u16) -> u8 {
    (v / 256) as u8
}

/// Low byte of a 16-bit value.
pub open spec fn low(v: u16) -> u8 {
    (v % 256) as u8
}

/// `x` modulo 2^16.
pub open spec fn wrap16(x: int) -> u16 {
    (x % 0x10000) as u16
}

/// `x` modulo 2^8.
pub open spec fn wrap8(x: int) -> u8 {
    (x % 0x100) as u8
}

/// The whole state of the processor, memory included, as plain values.
pub struct CpuState {
    pub a: u8,
    pub b: u8,
    pub c: u8,
    pub d: u8,
    pub e: u8,
    pub h: u8,
    pub l: u8,
    pub sp: u16,
    pub pc: u16,
    pub cc: Flags,
    pub ie: bool,
    pub halted: bool,
    pub mem: Seq<u8>,
}

impl CpuState {
    /// The memory image covers the whole 16 KiB address space.
    pub open spec fn wf(self) -> bool {
        self.mem.len() == MEM_SIZE
    }

    pub open spec fn read(self, addr: int) -> u8 {
        mem_read(self.mem, addr)
    }

    pub open spec fn write(self, addr: int, v: u8) -> CpuState {
        CpuState { mem: mem_write(self.mem, addr, v), ..self }
    }

    /// The `k`-th byte of the instruction stream at PC.
    pub open spec fn fetch(self, k: int) -> u8 {
        self.read(wrap16(self.pc + k) as int)
    }

    /// Register `r` of B, C, D, E, H, L, M, A, selector taken modulo 8; M is the
    /// byte at HL.
    pub open spec fn reg(self, r: u8) -> u8 {
        let r = r % 8;
        if r == 0 {
            self.b
        } else if r == 1 {
            self.c
        } else if r == 2 {
            self.d
        } else if r == 3 {
            self.e
        } else if r == 4 {
            self.h
        } else if r == 5 {
            self.l
        } else if r == 6 {
            self.read(join(self.h, self.l) as int)
        } else {
            self.a
        }
    }

    /// Writes register `r`, selector taken modulo 8.
    pub open spec fn set_reg(self, r: u8, v: u8) -> CpuState {
        let r = r % 8;
        if r == 0 {
            CpuState { b: v, ..self }
        } else if r == 1 {
            CpuState { c: v, ..self }
        } else if r == 2 {
            CpuState { d: v, ..self }
        } else if r == 3 {
            CpuState { e: v, ..self }
        } else if r == 4 {
            CpuState { h: v, ..self }
        } else if r == 5 {
            CpuState { l: v, ..self }
        } else if r == 6 {
            self.write(join(self.h, self.l) as int, v)
        } else {
            CpuState { a: v, ..self }
        }
    }

    /// Register pair `rp` of BC, DE, HL, SP, selector taken modulo 4.
    pub open spec fn pair(self, rp: u8) -> u16 {
        let rp = rp % 4;
        if rp == 0 {
            join(self.b, self.c)
        } else if rp == 1 {
            join(self.d, self.e)
        } else if rp == 2 {
            join(self.h, self.l)
        } else {
            self.sp
        }
    }

    /// Writes register pair `rp`, selector taken modulo 4.
    pub open spec fn set_pair(self, rp: u8, v: u16) -> CpuState {
        let rp = rp % 4;
        if rp == 0 {
            CpuState { b: high(v), c: low(v), ..self }
        } else if rp == 1 {
            CpuState { d: high(v), e: low(v), ..self }
        } else if rp == 2 {
            CpuState { h: high(v), l: low(v), ..self }
        } else {
            CpuState { sp: v, ..self }
        }
    }

    /// Register pair `rp` of BC, DE, HL, PSW, as the stack instructions see them,
    /// selector taken modulo 4.
    pub open spec fn stack_pair(self, rp: u8) -> u16 {
        if rp % 4 < 3 {
            self.pair(rp)
        } else {
            join(self.a, psw_byte(self.cc))
        }
    }

    /// Writes stack pair `rp`, selector taken modulo 4.
    pub open spec fn set_stack_pair(self, rp: u8, v: u16) -> CpuState {
        if rp % 4 < 3 {
            self.set_pair(rp, v)
        } else {
            CpuState { a: high(v), cc: unpack_flags(low(v)), ..self }
        }
    }

    /// Condition `cc` of NZ, Z, NC, C, PO, PE, P, M, selector taken modulo 8.
    pub open spec fn condition(self, cc: u8) -> bool {
        let cc = cc % 8;
        if cc == 0 {
            !self.cc.z
        } else if cc == 1 {
            self.cc.z
        } else if cc == 2 {
            !self.cc.cy
        } else if cc == 3 {
            self.cc.cy
        } else if cc == 4 {
            !self.cc.p
        } else if cc == 5 {
            self.cc.p
        } else if cc == 6 {
            !self.cc.s
        } else {
            self.cc.s
        }
    }

    /// Pushes `v`: high byte at SP-1, low byte at SP-2, then SP drops by 2.
    pub open spec fn push(self, v: u16) -> CpuState {
        let t = self.write(wrap16(self.sp - 1) as int, high(v)).write(
            wrap16(self.sp - 2) as int,
            low(v),
        );
        CpuState { sp: wrap16(self.sp - 2), ..t }
    }

    /// The 16-bit value on top of the stack.
    pub open spec fn top(self) -> u16 {
        join(self.read(wrap16(self.sp + 1) as int), self.read(self.sp as int))
    }

    /// Drops the top of the stack.
    pub open spec fn pop(self) -> CpuState {
        CpuState { sp: wrap16(self.sp + 2), ..self }
    }

    /// Stores the exact result `r` of an arithmetic operation in A: CY tells
    /// whether `r` left the byte range.
    pub open spec fn arith(self, r: int) -> CpuState {
        CpuState {
            a: wrap8(r),
            cc: Flags { cy: r < 0 || r > 255, ..result_flags(self.cc, wrap8(r)) },
            ..self
        }
    }

    /// Stores the result `v` of a logical operation in A, clearing CY.
    pub open spec fn logic(self, v: u8) -> CpuState {
        CpuState { a: v, cc: Flags { cy: false, ..result_flags(self.cc, v) }, ..self }
    }

    /// ALU operation `op` of ADD, ADC, SUB, SBB, ANA, XRA, ORA, CMP on A and `v`,
    /// selector taken modulo 8.
    pub open spec fn alu(self, op: u8, v: u8) -> CpuState {
        let op = op % 8;
        let a = self.a as int;
        let cin: int = if self.cc.cy { 1 } else { 0 };
        if op == 0 {
            self.arith(a + v)
        } else if op == 1 {
            self.arith(a + v + cin)
        } else if op == 2 {
            self.arith(a - v)
        } else if op == 3 {
            self.arith(a - v - cin)
        } else if op == 4 {
            self.logic(self.a & v)
        } else if op == 5 {
            self.logic(self.a ^ v)
        } else if op == 6 {
            self.logic(self.a | v)
        } else {
            CpuState { a: self.a, ..self.arith(a - v) }
        }
    }

    /// Flags after an 8-bit increment or decrement of register `r` to `v`.
    pub open spec fn step_reg(self, r: u8, v: u8) -> CpuState {
        CpuState { cc: result_flags(self.cc, v), ..self.set_reg(r, v) }
    }

    pub open spec fn with_cy(self, cy: bool) -> CpuState {
        CpuState { cc: Flags { cy, ..self.cc }, ..self }
    }
}

/// The effect of instruction `i` with immediate bytes `lo` and `hi`, on a state whose PC
/// already points past the instruction.
#[verifier::opaque]
pub open spec fn execute(s: CpuState, i: Instr, lo: u8, hi: u8) -> CpuState {
    let imm = join(hi, lo);
    let a = s.a as int;
    let cin: int = if s.cc.cy { 1 } else { 0 };
    match i {
        Instr::Nop | Instr::Daa | Instr::Out | Instr::In => s,
        Instr::Lxi(rp) => s.set_pair(rp, imm),
        Instr::Stax(rp) => s.write(s.pair(rp) as int, s.a),
        Instr::Ldax(rp) => CpuState { a: s.read(s.pair(rp) as int), ..s },
        Instr::Shld => s.write(imm as int, s.l).write(wrap16(imm + 1) as int, s.h),
        Instr::Lhld => CpuState { l: s.read(imm as int), h: s.read(wrap16(imm + 1) as int), ..s },
        Instr::Sta => s.write(imm as int, s.a),
        Instr::Lda => CpuState { a: s.read(imm as int), ..s },
        Instr::Inx(rp) => s.set_pair(rp, wrap16(s.pair(rp) + 1)),
        Instr::Dcx(rp) => s.set_pair(rp, wrap16(s.pair(rp) - 1)),
        Instr::Dad(rp) => {
            let sum = s.pair(HL) + s.pair(rp);
            s.set_pair(HL, wrap16(sum)).with_cy(sum > 0xFFFF)
        },
        Instr::Inr(r) => s.step_reg(r, wrap8(s.reg(r) + 1)),
        Instr::Dcr(r) => s.step_reg(r, wrap8(s.reg(r) - 1)),
        Instr::Mvi(r) => s.set_reg(r, lo),
        Instr::Rlc => CpuState { a: wrap8(a * 2 + a / 128), ..s }.with_cy(a >= 128),
        Instr::Rrc => CpuState { a: (a / 2 + (a % 2) * 128) as u8, ..s }.with_cy(a % 2 == 1),
        Instr::Ral => CpuState { a: wrap8(a * 2 + cin), ..s }.with_cy(a >= 128),
        Instr::Rar => CpuState { a: (a / 2 + cin * 128) as u8, ..s }.with_cy(a % 2 == 1),
        Instr::Cma => CpuState { a: (255 - a) as u8, ..s },
        Instr::Stc => s.with_cy(true),
        Instr::Cmc => s.with_cy(!s.cc.cy),
        Instr::Hlt => CpuState { halted: true, ..s },
        Instr::Mov(d, r) => s.set_reg(d, s.reg(r)),
        Instr::Alu(op, r) => s.alu(op, s.reg(r)),
        Instr::AluImm(op) => s.alu(op, lo),
        Instr::Rcc(cc) => if s.condition(cc) {
            CpuState { pc: s.top(), ..s.pop() }
        } else {
            s
        },
        Instr::Ret => CpuState { pc: s.top(), ..s.pop() },
        Instr::Pop(rp) => s.pop().set_stack_pair(rp, s.top()),
        Instr::Pchl => CpuState { pc: s.pair(HL), ..s },
        Instr::Sphl => CpuState { sp: s.pair(HL), ..s },
        Instr::Jcc(cc) => if s.condition(cc) {
            CpuState { pc: imm, ..s }
        } else {
            s
        },
        Instr::Jmp => CpuState { pc: imm, ..s },
        Instr::Xthl => CpuState {
            l: s.read(s.sp as int),
            h: s.read(wrap16(s.sp + 1) as int),
            ..s.write(s.sp as int, s.l).write(wrap16(s.sp + 1) as int, s.h)
        },
        Instr::Xchg => CpuState { d: s.h, e: s.l, h: s.d, l: s.e, ..s },
        Instr::Di => CpuState { ie: false, ..s },
        Instr::Ei => CpuState { ie: true, ..s },
        Instr::Ccc(cc) => if s.condition(cc) {
            CpuState { pc: imm, ..s.push(s.pc) }
        } else {
            s
        },
        Instr::Push(rp) => s.push(s.stack_pair(rp)),
        Instr::Call => CpuState { pc: imm, ..s.push(s.pc) },
        Instr::Rst(n) => CpuState { pc: (8 * n) as u16, ..s.push(s.pc) },
    }
}

/// The instruction at PC.
pub open spec fn current(s: CpuState) -> Instr {
    decode(s.fetch(0))
}

/// One instruction: fetch at PC, advance PC past it, and execute it. A halted
/// processor stays as it is.
pub open spec fn step(s: CpuState) -> CpuState {
    if s.halted {
        s
    } else {
        let i = current(s);
        execute(CpuState { pc: wrap16(s.pc + instr_len(i)), ..s }, i, s.fetch(1), s.fetch(2))
    }
}

/// Cycles that `step` takes.
pub open spec fn step_cycles(s: CpuState) -> nat {
    if s.halted {
        HALT_IDLE_CYCLES as nat
    } else {
        instr_cycles(current(s))
    }
}

/// Interrupt `n`: when enabled, disable interrupts, leave the halt, push PC and
/// jump to `8 * n`; otherwise nothing happens.
pub open spec fn accept_interrupt(s: CpuState, n: int) -> CpuState {
    if s.ie {
        CpuState { pc: (8 * n) as u16, ie: false, halted: false, ..s.push(s.pc) }
    } else {
        s
    }
}

/// Whether `v` has an even number of set bits.
pub fn parity(v: u8) -> (r: bool)
    ensures
        r == even_parity(v),
{
    let mut x: u8 = v;
    let mut odd: bool = false;
    while x != 0
        invariant
            (popcount(v as nat) % 2 == 1) == (odd != (popcount(x as nat) % 2 == 1)),
        decreases x,
    {
        if x % 2 == 1 {
            odd = !odd;
        }
        x = x / 2;
    }
    !odd
}

/// The flags after an operation whose result byte is `v`.
pub fn flags_for(f: Flags, v: u8) -> (r: Flags)
    ensures
        r == result_flags(f, v),
{
    Flags { s: v & 0x80 != 0, z: v == 0, p: parity(v), ..f }
}

/// An Intel 8080: registers, flags, stack pointer, program counter, interrupt
/// latch, halt state and the memory it runs from.
#[derive(Debug)]
pub struct Processor {
    /// Instructions executed so far, modulo 2^64.
    pub ic: u64,
    pub a: u8,
    pub b: u8,
    pub c: u8,
    pub d: u8,
    pub e: u8,
    pub h: u8,
    pub l: u8,
    pub sp: u16,
    pub pc: u16,
    pub cc: Flags,
    pub ie: bool,
    pub halted: bool,
    pub mem: Memory,
}

impl View for Processor {
    type V = CpuState;

    open spec fn view(&self) -> CpuState {
        CpuState {
            a: self.a,
            b: self.b,
            c: self.c,
            d: self.d,
            e: self.e,
            h: self.h,
            l: self.l,
            sp: self.sp,
            pc: self.pc,
            cc: self.cc,
            ie: self.ie,
            halted: self.halted,
            mem: self.mem@,
        }
    }
}

/// The state at power-on: `rom` loaded, RAM zeroed, registers and flags cleared,
/// interrupts disabled.
pub open spec fn reset_state(rom: Seq<u8>) -> CpuState {
    CpuState {
        a: 0,
        b: 0,
        c: 0,
        d: 0,
        e: 0,
        h: 0,
        l: 0,
        sp: 0,
        pc: 0,
        cc: Flags { s: false, z: false, ac: false, p: false, cy: false },
        ie: false,
        halted: false,
        mem: rom + Seq::new(RAM_SIZE as nat, |i: int| 0u8),
    }
}

/// 16-bit arithmetic and 8-bit increments and decrements.
pub open spec fn arith_group(i: Instr) -> bool {
    i is Inx || i is Dcx || i is Dad || i is Inr || i is Dcr
}

/// Rotates, carry operations, complement and the ALU operations on A.
pub open spec fn alu_group(i: Instr) -> bool {
    i is Rlc || i is Rrc || i is Ral || i is Rar || i is Cma || i is Stc || i is Cmc || i is Alu
        || i is AluImm
}

/// Jumps, calls, returns, stack, interrupt-latch and halt instructions.
pub open spec fn control_group(i: Instr) -> bool {
    i is Hlt || i is Rcc || i is Ret || i is Pop || i is Pchl || i is Jcc || i is Jmp || i is Di
        || i is Ei || i is Ccc || i is Push || i is Call || i is Rst
}

/// Whether `i` is a 16-bit arithmetic instruction or an 8-bit increment or decrement.
fn is_arith(i: Instr) -> (r: bool)
    ensures
        r == arith_group(i),
{
    match i {
        Instr::Inx(_) | Instr::Dcx(_) | Instr::Dad(_) | Instr::Inr(_) | Instr::Dcr(_) => true,
        _ => false,
    }
}

/// Whether `i` is a rotate, carry operation, complement or ALU operation on A.
fn is_alu(i: Instr) -> (r: bool)
    ensures
        r == alu_group(i),
{
    match i {
        Instr::Rlc | Instr::Rrc | Instr::Ral | Instr::Rar | Instr::Cma | Instr::Stc | Instr::Cmc
        | Instr::Alu(_, _) | Instr::AluImm(_) => true,
        _ => false,
    }
}

/// Whether `i` is a jump, call, return, stack, interrupt-latch or halt instruction.
fn is_control(i: Instr) -> (r: bool)
    ensures
        r == control_group(i),
{
    match i {
        Instr::Hlt | Instr::Rcc(_) | Instr::Ret | Instr::Pop(_) | Instr::Pchl | Instr::Jcc(_)
        | Instr::Jmp | Instr::Di | Instr::Ei | Instr::Ccc(_) | Instr::Push(_) | Instr::Call
        | Instr::Rst(_) => true,
        _ => false,
    }
}

impl Processor {
    pub fn new(rom: [u8; ROM_SIZE]) -> (r: Processor)
        ensures
            r@ == reset_state(rom@),
            r.ic == 0,
    {
        Processor {
            ic: 0,
            a: 0,
            b: 0,
            c: 0,
            d: 0,
            e: 0,
            h: 0,
            l: 0,
            sp: 0,
            pc: 0,
            cc: Flags::new(),
            ie: false,
            halted: false,
            mem: Memory::new(rom),
        }
    }

    fn hl(&self) -> (r: u16)
        ensures
            r == join(self.h, self.l),
    {
        self.h as u16 * 256 + self.l as u16
    }

    /// Reads register `s` of B, C, D, E, H, L, M, A (selector modulo 8).
    pub fn get_reg(&self, s: u8) -> (r: u8)
        ensures
            r == self@.reg(s),
    {
        match s % 8 {
            0 => self.b,
            1 => self.c,
            2 => self.d,
            3 => self.e,
            4 => self.h,
            5 => self.l,
            6 => self.mem.read(self.hl() as usize),
            _ => self.a,
        }
    }

    /// Writes register `d` of B, C, D, E, H, L, M, A (selector modulo 8).
    pub fn set_reg(&mut self, d: u8, db: u8)
        ensures
            final(self)@ == old(self)@.set_reg(d, db),
            final(self).ic == old(self).ic,
    {
        match d % 8 {
            0 => self.b = db,
            1 => self.c = db,
            2 => self.d = db,
            3 => self.e = db,
            4 => self.h = db,
            5 => self.l = db,
            6 => {
                let addr = self.hl();
                self.mem.write(addr as usize, db)
            },
            _ => self.a = db,
        }
    }

    /// Reads register pair `rp` (modulo 4): BC, DE, HL, then SP, or PSW when `psw` is set.
    pub fn get_reg_pair(&self, rp: u8, psw: bool) -> (r: u16)
        ensures
            r == if psw { self@.stack_pair(rp) } else { self@.pair(rp) },
    {
        match rp % 4 {
            0 => self.b as u16 * 256 + self.c as u16,
            1 => self.d as u16 * 256 + self.e as u16,
            2 => self.hl(),
            _ => if psw {
                let f: u8 = (if self.cc.s { 0x80u8 } else { 0u8 }) | (if self.cc.z {
                    0x40u8
                } else {
                    0u8
                }) | (if self.cc.ac { 0x10u8 } else { 0u8 }) | (if self.cc.p {
                    0x04u8
                } else {
                    0u8
                }) | 0x02u8 | (if self.cc.cy { 0x01u8 } else { 0u8 });
                self.a as u16 * 256 + f as u16
            } else {
                self.sp
            },
        }
    }

    /// Writes register pair `rp` (modulo 4): BC, DE, HL, then SP, or PSW when `psw` is set.
    pub fn set_reg_pair(&mut self, rp: u8, db: u16, psw: bool)
        ensures
            final(self)@ == if psw {
                old(self)@.set_stack_pair(rp, db)
            } else {
                old(self)@.set_pair(rp, db)
            },
            final(self).ic == old(self).ic,
    {
        let hb = (db / 256) as u8;
        let lb = (db % 256) as u8;
        match rp % 4 {
            0 => {
                self.b = hb;
                self.c = lb;
            },
            1 => {
                self.d = hb;
                self.e = lb;
            },
            2 => {
                self.h = hb;
                self.l = lb;
            },
            _ => if psw {
                self.a = hb;
                self.cc = Flags {
                    s: lb & 0x80 != 0,
                    z: lb & 0x40 != 0,
                    ac: lb & 0x10 != 0,
                    p: lb & 0x04 != 0,
                    cy: lb & 0x01 != 0,
                };
            } else {
                self.sp = db;
            },
        }
    }

    /// Evaluates condition `d` (modulo 8) of NZ, Z, NC, C, PO, PE, P, M.
    pub fn get_ccc(&self, d: u8) -> (r: bool)
        ensures
            r == self@.condition(d),
    {
        match d % 8 {
            0 => !self.cc.z,
            1 => self.cc.z,
            2 => !self.cc.cy,
            3 => self.cc.cy,
            4 => !self.cc.p,
            5 => self.cc.p,
            6 => !self.cc.s,
            _ => self.cc.s,
        }
    }

    /// Sets S, Z and P from the result byte `ans`.
    pub fn cc(&mut self, ans: u8)
        ensures
            final(self)@ == (CpuState { cc: result_flags(old(self).cc, ans), ..old(self)@ }),
            final(self).ic == old(self).ic,
    {
        self.cc = flags_for(self.cc, ans);
    }

    /// Stores the exact result `r` of an arithmetic operation in A and sets the flags.
    fn arith(&mut self, r: i16)
        requires
            -256 <= r < 512,
        ensures
            final(self)@ == old(self)@.arith(r as int),
            final(self).ic == old(self).ic,
    {
        let v: u8 = if r < 0 {
            (r + 256) as u8
        } else if r > 255 {
            (r - 256) as u8
        } else {
            r as u8
        };
        self.a = v;
        self.cc = Flags { cy: r < 0 || r > 255, ..flags_for(self.cc, v) };
    }

    /// Stores the result `v` of a logical operation in A and sets the flags.
    fn logic(&mut self, v: u8)
        ensures
            final(self)@ == old(self)@.logic(v),
            final(self).ic == old(self).ic,
    {
        self.a = v;
        self.cc = Flags { cy: false, ..flags_for(self.cc, v) };
    }

    /// ANA: A = A & `db`.
    pub fn and(&mut self, db: u8)
        ensures
            final(self)@ == old(self)@.alu(4, db),
            final(self).ic == old(self).ic,
    {
        self.logic(self.a & db);
    }

    /// XRA: A = A ^ `db`.
    pub fn xor(&mut self, db: u8)
        ensures
            final(self)@ == old(self)@.alu(5, db),
            final(self).ic == old(self).ic,
    {
        self.logic(self.a ^ db);
    }

    /// ORA: A = A | `db`.
    pub fn or(&mut self, db: u8)
        ensures
            final(self)@ == old(self)@.alu(6, db),
            final(self).ic == old(self).ic,
    {
        self.logic(self.a | db);
    }

    /// ADD, or ADC when `c` is set: A = A + `db` (+ CY).
    pub fn add(&mut self, db: u8, c: bool)
        ensures
            final(self)@ == old(self)@.alu(if c { 1 } else { 0 }, db),
            final(self).ic == old(self).ic,
    {
        let cin: i16 = if c && self.cc.cy { 1 } else { 0 };
        self.arith(self.a as i16 + db as i16 + cin);
    }

    /// SUB, or SBB when `c` is set: A = A - `db` (- CY); CY is the borrow.
    pub fn sub(&mut self, db: u8, c: bool)
        ensures
            final(self)@ == old(self)@.alu(if c { 3 } else { 2 }, db),
            final(self).ic == old(self).ic,
    {
        let cin: i16 = if c && self.cc.cy { 1 } else { 0 };
        self.arith(self.a as i16 - db as i16 - cin);
    }

    /// CMP: the flags of A - `db`, with A kept.
    pub fn cmp(&mut self, db: u8)
        ensures
            final(self)@ == old(self)@.alu(7, db),
            final(self).ic == old(self).ic,
    {
        let a = self.a;
        self.arith(a as i16 - db as i16);
        self.a = a;
    }

    /// DAD: HL = HL + pair `rp`; CY tells whether the sum overflowed.
    pub fn dad(&mut self, rp: u8)
        ensures
            final(self)@ == execute(old(self)@, Instr::Dad(rp), 0, 0),
            final(self).ic == old(self).ic,
    {
        reveal(execute);
        let ans = self.get_reg_pair(HL, false) as u32 + self.get_reg_pair(rp, false) as u32;
        self.set_reg_pair(HL, (ans % 0x10000) as u16, false);
        self.cc.cy = ans > 0xFFFF;
    }

    /// Pops the top of the stack.
    pub fn pop(&mut self) -> (r: u16)
        ensures
            r == old(self)@.top(),
            final(self)@ == old(self)@.pop(),
            final(self).ic == old(self).ic,
    {
        let hb = self.mem.read(self.sp.wrapping_add(1) as usize);
        let lb = self.mem.read(self.sp as usize);
        self.sp = self.sp.wrapping_add(2);
        hb as u16 * 256 + lb as u16
    }

    /// Pushes `hblb`: high byte at SP-1, low byte at SP-2.
    pub fn push(&mut self, hblb: u16)
        ensures
            final(self)@ == old(self)@.push(hblb),
            final(self).ic == old(self).ic,
    {
        self.mem.write(self.sp.wrapping_sub(1) as usize, (hblb / 256) as u8);
        self.mem.write(self.sp.wrapping_sub(2) as usize, (hblb % 256) as u8);
        self.sp = self.sp.wrapping_sub(2);
    }

    /// RLC, or RAL when `c` is set: rotate A left; the bit shifted out goes to CY.
    pub fn rl(&mut self, c: bool)
        ensures
            final(self)@ == execute(old(self)@, if c { Instr::Ral } else { Instr::Rlc }, 0, 0),
            final(self).ic == old(self).ic,
    {
        reveal(execute);
        let hb = self.a / 128;
        let bit0 = if c { if self.cc.cy { 1u8 } else { 0u8 } } else { hb };
        self.a = (self.a % 128) * 2 + bit0;
        self.cc.cy = hb == 1;
    }

    /// RRC, or RAR when `c` is set: rotate A right; the bit shifted out goes to CY.
    pub fn rr(&mut self, c: bool)
        ensures
            final(self)@ == execute(old(self)@, if c { Instr::Rar } else { Instr::Rrc }, 0, 0),
            final(self).ic == old(self).ic,
    {
        reveal(execute);
        let lb = self.a % 2;
        let bit7 = if c { if self.cc.cy { 1u8 } else { 0u8 } } else { lb };
        self.a = self.a / 2 + bit7 * 128;
        self.cc.cy = lb == 1;
    }

    /// INX, or DCX when `up` is clear: pair `rp` plus or minus one, modulo 2^16.
    fn inx(&mut self, rp: u8, up: bool)
        ensures
            final(self)@ == old(self)@.set_pair(
                rp,
                wrap16(old(self)@.pair(rp) + if up { 1int } else { -1int }),
            ),
            final(self).ic == old(self).ic,
    {
        let v = self.get_reg_pair(rp, false);
        let w = if up { v.wrapping_add(1) } else { v.wrapping_sub(1) };
        self.set_reg_pair(rp, w, false);
    }

    /// INR, or DCR when `up` is clear: register `r` plus or minus one, modulo 2^8,
    /// with S, Z and P set from the result.
    fn inr(&mut self, r: u8, up: bool)
        ensures
            final(self)@ == old(self)@.step_reg(
                r,
                wrap8(old(self)@.reg(r) + if up { 1int } else { -1int }),
            ),
            final(self).ic == old(self).ic,
    {
        let v = self.get_reg(r);
        let w = if up { v.wrapping_add(1) } else { v.wrapping_sub(1) };
        self.set_reg(r, w);
        self.cc(w);
    }

    /// Accepts interrupt `int_num` when interrupts are enabled: pushes PC, jumps to
    /// `8 * int_num`, disables interrupts and ends a halt.
    pub fn interrupt(&mut self, int_num: usize)
        requires
            int_num < 8,
        ensures
            final(self)@ == accept_interrupt(old(self)@, int_num as int),
            final(self).ic == old(self).ic,
    {
        if self.ie {
            self.push(self.pc);
            self.pc = 8 * int_num as u16;
            self.ie = false;
            self.halted = false;
        }
    }

    /// Executes the decoded instruction `ins` with immediate bytes `lo` and `hi`;
    /// PC already points past it.
    fn execute_instr(&mut self, ins: Instr, lo: u8, hi: u8)
        ensures
            final(self)@ == execute(old(self)@, ins, lo, hi),
            final(self).ic == old(self).ic,
    {
        if is_alu(ins) {
            self.run_alu(ins, lo, hi)
        } else if is_arith(ins) {
            self.run_arith(ins, lo, hi)
        } else if is_control(ins) {
            self.run_control(ins, lo, hi)
        } else {
            self.run_transfer(ins, lo, hi)
        }
    }

    /// Data transfer: moves between registers, memory and immediates.
    #[verifier::rlimit(30)]
    fn run_transfer(&mut self, ins: Instr, lo: u8, hi: u8)
        requires
            !arith_group(ins) && !alu_group(ins) && !control_group(ins),
        ensures
            final(self)@ == execute(old(self)@, ins, lo, hi),
            final(self).ic == old(self).ic,
    {
        reveal(execute);
        let imm = hi as u16 * 256 + lo as u16;
        match ins {
            Instr::Nop | Instr::Daa | Instr::Out | Instr::In => {},
            Instr::Lxi(rp) => self.set_reg_pair(rp, imm, false),
            Instr::Stax(rp) => {
                let addr = self.get_reg_pair(rp, false);
                self.mem.write(addr as usize, self.a);
            },
            Instr::Ldax(rp) => {
                let addr = self.get_reg_pair(rp, false);
                self.a = self.mem.read(addr as usize);
            },
            Instr::Shld => {
                self.mem.write(imm as usize, self.l);
                self.mem.write(imm.wrapping_add(1) as usize, self.h);
            },
            Instr::Lhld => {
                self.l = self.mem.read(imm as usize);
                self.h = self.mem.read(imm.wrapping_add(1) as usize);
            },
            Instr::Sta => self.mem.write(imm as usize, self.a),
            Instr::Lda => self.a = self.mem.read(imm as usize),
            Instr::Mvi(r) => self.set_reg(r, lo),
            Instr::Mov(d, r) => {
                let v = self.get_reg(r);
                self.set_reg(d, v);
            },
            Instr::Sphl => self.sp = self.hl(),
            Instr::Xthl => {
                let sp1 = self.sp.wrapping_add(1);
                let lb = self.mem.read(self.sp as usize);
                let hb = self.mem.read(sp1 as usize);
                self.mem.write(self.sp as usize, self.l);
                self.mem.write(sp1 as usize, self.h);
                self.l = lb;
                self.h = hb;
            },
            Instr::Xchg => {
                let (hb, lb) = (self.d, self.e);
                self.d = self.h;
                self.e = self.l;
                self.h = hb;
                self.l = lb;
            },
            _ => {},
        }
    }

    /// 16-bit arithmetic and 8-bit increments and decrements.
    fn run_arith(&mut self, ins: Instr, lo: u8, hi: u8)
        requires
            arith_group(ins),
        ensures
            final(self)@ == execute(old(self)@, ins, lo, hi),
            final(self).ic == old(self).ic,
    {
        reveal(execute);
        match ins {
            Instr::Inx(rp) => self.inx(rp, true),
            Instr::Dcx(rp) => self.inx(rp, false),
            Instr::Dad(rp) => self.dad(rp),
            Instr::Inr(r) => self.inr(r, true),
            Instr::Dcr(r) => self.inr(r, false),
            _ => {},
        }
    }

    /// Rotates, carry operations, complement and the ALU operations on A.
    fn run_alu(&mut self, ins: Instr, lo: u8, hi: u8)
        requires
            alu_group(ins),
        ensures
            final(self)@ == execute(old(self)@, ins, lo, hi),
            final(self).ic == old(self).ic,
    {
        reveal(execute);
        match ins {
            Instr::Rlc => self.rl(false),
            Instr::Rrc => self.rr(false),
            Instr::Ral => self.rl(true),
            Instr::Rar => self.rr(true),
            Instr::Cma => self.a = 255 - self.a,
            Instr::Stc => self.cc.cy = true,
            Instr::Cmc => self.cc.cy = !self.cc.cy,
            Instr::Alu(op, r) => {
                let v = self.get_reg(r);
                self.alu(op, v);
            },
            Instr::AluImm(op) => self.alu(op, lo),
            _ => {},
        }
    }

    /// Jumps, calls, returns, the stack, interrupts and halt.
    fn run_control(&mut self, ins: Instr, lo: u8, hi: u8)
        requires
            control_group(ins),
        ensures
            final(self)@ == execute(old(self)@, ins, lo, hi),
            final(self).ic == old(self).ic,
    {
        reveal(execute);
        let imm = hi as u16 * 256 + lo as u16;
        match ins {
            Instr::Hlt => self.halted = true,
            Instr::Rcc(cc) => {
                if self.get_ccc(cc) {
                    self.pc = self.pop();
                }
            },
            Instr::Ret => self.pc = self.pop(),
            Instr::Pop(rp) => {
                let v = self.pop();
                self.set_reg_pair(rp, v, true);
            },
            Instr::Pchl => self.pc = self.hl(),
            Instr::Jcc(cc) => {
                if self.get_ccc(cc) {
                    self.pc = imm;
                }
            },
            Instr::Jmp => self.pc = imm,
            Instr::Di => self.ie = false,
            Instr::Ei => self.ie = true,
            Instr::Ccc(cc) => {
                if self.get_ccc(cc) {
                    self.push(self.pc);
                    self.pc = imm;
                }
            },
            Instr::Push(rp) => {
                let v = self.get_reg_pair(rp, true);
                self.push(v);
            },
            Instr::Call => {
                self.push(self.pc);
                self.pc = imm;
            },
            Instr::Rst(n) => {
                self.push(self.pc);
                self.pc = 8 * n as u16;
            },
            _ => {},
        }
    }

    /// ALU operation `op` of ADD, ADC, SUB, SBB, ANA, XRA, ORA, CMP on A and `v`.
    fn alu(&mut self, op: u8, v: u8)
        ensures
            final(self)@ == old(self)@.alu(op, v),
            final(self).ic == old(self).ic,
    {
        match op % 8 {
            0 => self.add(v, false),
            1 => self.add(v, true),
            2 => self.sub(v, false),
            3 => self.sub(v, true),
            4 => self.and(v),
            5 => self.xor(v),
            6 => self.or(v),
            _ => self.cmp(v),
        }
    }

    /// Executes one instruction and returns the cycles it took. A halted processor
    /// fetches nothing and idles.
    pub fn exec(&mut self) -> (r: usize)
        ensures
            final(self)@ == step(old(self)@),
            r == step_cycles(old(self)@),
            final(self).ic == if old(self).halted {
                old(self).ic
            } else {
                vstd::wrapping::u64_specs::wrapping_add(old(self).ic, 1)
            },
    {
        if self.halted {
            return HALT_IDLE_CYCLES;
        }
        self.ic = self.ic.wrapping_add(1);
        let opcode = self.mem.read(self.pc as usize);
        let ins = decode_op(opcode);
        let lo = self.mem.read(self.pc.wrapping_add(1) as usize);
        let hi = self.mem.read(self.pc.wrapping_add(2) as usize);
        self.pc = self.pc.wrapping_add(ins.len() as u16);
        self.execute_instr(ins, lo, hi);
        ins.cycles()
    }
}

/// The PSW flag byte gives back the five flags it was packed from.
pub proof fn lemma_psw_flags(f: Flags)
    ensures
        unpack_flags(psw_byte(f)) == f,
{
    let (s, z, ac, p, cy) = (f.s, f.z, f.ac, f.p, f.cy);
    let b = psw_byte(f);
    assert(b == (if s { 0x80u8 } else { 0u8 }) | (if z { 0x40u8 } else { 0u8 }) | (if ac {
        0x10u8
    } else {
        0u8
    }) | (if p { 0x04u8 } else { 0u8 }) | 0x02u8 | (if cy { 0x01u8 } else { 0u8 }));
    assert(((b & 0x80 != 0) == s && (b & 0x40 != 0) == z && (b & 0x10 != 0) == ac && (b & 0x04
        != 0) == p && (b & 0x01 != 0) == cy)) by (bit_vector)
        requires
            b == (if s { 0x80u8 } else { 0u8 }) | (if z { 0x40u8 } else { 0u8 }) | (if ac {
                0x10u8
            } else {
                0u8
            }) | (if p { 0x04u8 } else { 0u8 }) | 0x02u8 | (if cy { 0x01u8 } else { 0u8 }),
    ;
}

/// A 16-bit value splits into bytes that join back to it.
pub proof fn lemma_join_split(v: u16)
    ensures
        join(high(v), low(v)) == v,
{
}

/// The stack bytes below `sp` lie in RAM, so a push there is kept.
pub open spec fn stack_in_ram(sp: u16) -> bool {
    ROM_SIZE + 2 <= sp <= MEM_SIZE
}

/// After an ALU operation that stores its result in A (ADD, ADC, SUB, SBB, ANA, XRA,
/// ORA, on a register or an immediate, and INR A, DCR A), Z tells whether A is zero,
/// S is bit 7 of A, and P tells whether A has an even number of set bits.
pub proof fn lemma_alu_flags_follow_a(s: CpuState, i: Instr, lo: u8, hi: u8)
    requires
        (i is Alu && i->Alu_0 < 7) || (i is AluImm && i->AluImm_0 < 7) || i == Instr::Inr(7)
            || i == Instr::Dcr(7),
    ensures
        ({
            let t = execute(s, i, lo, hi);
            &&& t.cc.z == (t.a == 0)
            &&& t.cc.s == (t.a & 0x80 != 0)
            &&& t.cc.p == (popcount(t.a as nat) % 2 == 0)
        }),
{
    reveal(execute);
}

/// Every executed ALU operation that stores its result in A leaves Z, S and P
/// describing the new A.
pub proof fn lemma_step_alu_flags(s: CpuState)
    requires
        !s.halted,
        (current(s) is Alu && current(s)->Alu_0 < 7) || (current(s) is AluImm && current(s)->AluImm_0
            < 7),
    ensures
        step(s).cc.z == (step(s).a == 0),
        step(s).cc.s == (step(s).a & 0x80 != 0),
        step(s).cc.p == (popcount(step(s).a as nat) % 2 == 0),
{
    let i = current(s);
    lemma_alu_flags_follow_a(
        CpuState { pc: wrap16(s.pc + instr_len(i)), ..s },
        i,
        s.fetch(1),
        s.fetch(2),
    );
}

/// A 16-bit value joined from two bytes splits back into them.
pub proof fn lemma_split_join(hi: u8, lo: u8)
    ensures
        high(join(hi, lo)) == hi,
        low(join(hi, lo)) == lo,
{
}

/// A push onto a stack in RAM leaves the pushed value on top, and dropping it gives
/// back SP; nothing but memory and SP changes.
pub proof fn lemma_push_top(s: CpuState, v: u16)
    requires
        s.wf(),
        stack_in_ram(s.sp),
    ensures
        s.push(v).top() == v,
        s.push(v).pop().sp == s.sp,
        s.push(v).wf(),
        (CpuState { mem: s.mem, sp: s.sp, ..s.push(v) }) == s,
{
    lemma_join_split(v);
    assert(wrap16(s.sp - 1) == s.sp - 1);
    assert(wrap16(s.sp - 2) == s.sp - 2);
    assert(wrap16(wrap16(s.sp - 2) + 1) == s.sp - 1);
    assert(wrap16(wrap16(s.sp - 2) + 2) == s.sp);
}

proof fn lemma_execute_stack(s: CpuState, rp: u8, lo: u8, hi: u8)
    ensures
        execute(s, Instr::Push(rp), lo, hi) == s.push(s.stack_pair(rp)),
        execute(s, Instr::Pop(rp), lo, hi) == s.pop().set_stack_pair(rp, s.top()),
        execute(s, Instr::Call, lo, hi) == (CpuState { pc: join(hi, lo), ..s.push(s.pc) }),
        execute(s, Instr::Ret, lo, hi) == (CpuState { pc: s.top(), ..s.pop() }),
{
    reveal(execute);
}

proof fn lemma_execute_inx(s: CpuState, rp: u8, lo: u8, hi: u8)
    ensures
        execute(s, Instr::Inx(rp), lo, hi) == s.set_pair(rp, wrap16(s.pair(rp) + 1)),
        execute(s, Instr::Dcx(rp), lo, hi) == s.set_pair(rp, wrap16(s.pair(rp) - 1)),
{
    reveal(execute);
}

/// PUSH of a pair followed by POP of the same pair restores every register, the
/// flags and SP (for PSW: A and the five flags), when the stack lies in RAM.
pub proof fn lemma_push_pop(s: CpuState, rp: u8, lo: u8, hi: u8)
    requires
        s.wf(),
        rp < 4,
        stack_in_ram(s.sp),
    ensures
        ({
            let t = execute(execute(s, Instr::Push(rp), lo, hi), Instr::Pop(rp), lo, hi);
            CpuState { mem: s.mem, ..t } == s
        }),
{
    let v = s.stack_pair(rp);
    let u = execute(s, Instr::Push(rp), lo, hi);
    lemma_execute_stack(s, rp, lo, hi);
    lemma_execute_stack(u, rp, lo, hi);
    lemma_push_top(s, v);
    lemma_psw_flags(s.cc);
    lemma_split_join(s.b, s.c);
    lemma_split_join(s.d, s.e);
    lemma_split_join(s.h, s.l);
    lemma_split_join(s.a, psw_byte(s.cc));
}

/// CALL followed, at its target, by RET brings PC back to the instruction after the
/// CALL and SP back to where it was, when the stack lies in RAM.
pub proof fn lemma_call_ret(s: CpuState)
    requires
        s.wf(),
        !s.halted,
        s.fetch(0) == 0xCD,
        stack_in_ram(s.sp),
        step(s).fetch(0) == 0xC9,
    ensures
        step(s).pc == join(s.fetch(2), s.fetch(1)),
        step(step(s)).pc == wrap16(s.pc + 3),
        step(step(s)).sp == s.sp,
{
    assert(decode(0xCD) == Instr::Call);
    assert(decode(0xC9) == Instr::Ret);
    let t = CpuState { pc: wrap16(s.pc + 3), ..s };
    lemma_execute_stack(t, 0, s.fetch(1), s.fetch(2));
    let u = step(s);
    lemma_execute_stack(CpuState { pc: wrap16(u.pc + 1), ..u }, 0, u.fetch(1), u.fetch(2));
    lemma_push_top(t, t.pc);
}

/// Writing a pair and reading it back gives the value written; writing it twice
/// keeps the second value; writing back what it held changes nothing.
pub proof fn lemma_set_pair(s: CpuState, rp: u8, v: u16)
    requires
        rp < 4,
    ensures
        s.set_pair(rp, v).pair(rp) == v,
        s.set_pair(rp, v).set_pair(rp, s.pair(rp)) == s,
{
    lemma_join_split(v);
    lemma_split_join(s.b, s.c);
    lemma_split_join(s.d, s.e);
    lemma_split_join(s.h, s.l);
}

proof fn lemma_wrap16_inc_dec(x: u16)
    ensures
        wrap16(wrap16(x + 1) - 1) == x,
{
    if x == 0xFFFF {
        assert(wrap16(x + 1) == 0);
        assert(wrap16(-1) == 0xFFFF);
    } else {
        assert(wrap16(x + 1) == x + 1);
    }
}

/// INX of a pair followed by DCX of the same pair leaves the whole state as it was.
pub proof fn lemma_inx_dcx(s: CpuState, rp: u8, lo: u8, hi: u8)
    requires
        rp < 4,
    ensures
        execute(execute(s, Instr::Inx(rp), lo, hi), Instr::Dcx(rp), lo, hi) == s,
{
    let v = wrap16(s.pair(rp) + 1);
    lemma_execute_inx(s, rp, lo, hi);
    let u = s.set_pair(rp, v);
    lemma_execute_inx(u, rp, lo, hi);
    lemma_set_pair(s, rp, v);
    assert(u.pair(rp) == v);
    lemma_wrap16_inc_dec(s.pair(rp));
}

/// DAD adds a pair into HL; of the flags only CY changes, and it tells whether the
/// sum overflowed 16 bits. Nothing else changes.
pub proof fn lemma_dad(s: CpuState, rp: u8, lo: u8, hi: u8)
    requires
        rp < 4,
    ensures
        ({
            let t = execute(s, Instr::Dad(rp), lo, hi);
            &&& t.pair(HL) == wrap16(s.pair(HL) + s.pair(rp))
            &&& t.cc == Flags { cy: s.pair(HL) + s.pair(rp) > 0xFFFF, ..s.cc }
            &&& CpuState { h: s.h, l: s.l, cc: s.cc, ..t } == s
        }),
{
    reveal(execute);
    lemma_join_split(wrap16(s.pair(HL) + s.pair(rp)));
}

/// CMP and SUI on the same operand `x` set S, Z, P and CY alike, and CMP keeps A;
/// so does CPI.
pub proof fn lemma_cmp_sui(s: CpuState, r: u8, x: u8, hi: u8)
    requires
        s.reg(r) == x,
    ensures
        execute(s, Instr::Alu(7, r), x, hi).cc == execute(s, Instr::AluImm(2), x, hi).cc,
        execute(s, Instr::AluImm(7), x, hi).cc == execute(s, Instr::AluImm(2), x, hi).cc,
        execute(s, Instr::Alu(7, r), x, hi).a == s.a,
        execute(s, Instr::AluImm(7), x, hi).a == s.a,
{
    reveal(execute);
}

} // verus!
