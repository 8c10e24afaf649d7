use vstd::prelude::*;

verus! {

/// One decoded 8080 instruction.
///
/// Register selectors (`r`, `d`, `s`) name B, C, D, E, H, L, M, A by 0 to 7;
/// pair selectors (`rp`) name BC, DE, HL and then SP (or PSW for the stack);
/// condition selectors (`cc`) name NZ, Z, NC, C, PO, PE, P, M by 0 to 7;
/// ALU selectors name ADD, ADC, SUB, SBB, ANA, XRA, ORA, CMP by 0 to 7.
#[derive(Debug, Clone, Copy, PartialEq, Eq, Structural)]
pub enum Instr {
    /// `NOP`, and every encoding that the 8080 leaves undocumented.
    Nop,
    Lxi(u8),
    Stax(u8),
    Ldax(u8),
    Shld,
    Lhld,
    Sta,
    Lda,
    Inx(u8),
    Dcx(u8),
    Dad(u8),
    Inr(u8),
    Dcr(u8),
    Mvi(u8),
    Rlc,
    Rrc,
    Ral,
    Rar,
    Daa,
    Cma,
    Stc,
    Cmc,
    Hlt,
    Mov(u8, u8),
    Alu(u8, u8),
    AluImm(u8),
    Rcc(u8),
    Ret,
    Pop(u8),
    Pchl,
    Sphl,
    Jcc(u8),
    Jmp,
    Out,
    In,
    Xthl,
    Xchg,
    Di,
    Ei,
    Ccc(u8),
    Push(u8),
    Call,
    Rst(u8),
}

/// The instruction that opcode byte `op` encodes.
///
/// Bits 7-6 pick the group, bits 5-3 the destination or condition (`d`),
/// bits 2-0 the source (`s`), bits 5-4 the register pair (`rp`).
pub open spec fn decode(op: u8) -> Instr {
    let g = op / 64;
    let d = (op / 8) % 8;
    let s = op % 8;
    let rp = (op / 16) % 4;
    let q = (op / 8) % 2;
    if g == 0 {
        if s == 0 {
            Instr::Nop
        } else if s == 1 {
            if q == 0 { Instr::Lxi(rp) } else { Instr::Dad(rp) }
        } else if s == 2 {
            if d == 0 { Instr::Stax(0) }
            else if d == 1 { Instr::Ldax(0) }
            else if d == 2 { Instr::Stax(1) }
            else if d == 3 { Instr::Ldax(1) }
            else if d == 4 { Instr::Shld }
            else if d == 5 { Instr::Lhld }
            else if d == 6 { Instr::Sta }
            else { Instr::Lda }
        } else if s == 3 {
            if q == 0 { Instr::Inx(rp) } else { Instr::Dcx(rp) }
        } else if s == 4 {
            Instr::Inr(d)
        } else if s == 5 {
            Instr::Dcr(d)
        } else if s == 6 {
            Instr::Mvi(d)
        } else {
            if d == 0 { Instr::Rlc }
            else if d == 1 { Instr::Rrc }
            else if d == 2 { Instr::Ral }
            else if d == 3 { Instr::Rar }
            else if d == 4 { Instr::Daa }
            else if d == 5 { Instr::Cma }
            else if d == 6 { Instr::Stc }
            else { Instr::Cmc }
        }
    } else if g == 1 {
        if op == 0x76 { Instr::Hlt } else { Instr::Mov(d, s) }
    } else if g == 2 {
        Instr::Alu(d, s)
    } else {
        if s == 0 {
            Instr::Rcc(d)
        } else if s == 1 {
            if q == 0 { Instr::Pop(rp) }
            else if rp == 0 { Instr::Ret }
            else if rp == 1 { Instr::Nop }
            else if rp == 2 { Instr::Pchl }
            else { Instr::Sphl }
        } else if s == 2 {
            Instr::Jcc(d)
        } else if s == 3 {
            if d == 0 { Instr::Jmp }
            else if d == 1 { Instr::Nop }
            else if d == 2 { Instr::Out }
            else if d == 3 { Instr::In }
            else if d == 4 { Instr::Xthl }
            else if d == 5 { Instr::Xchg }
            else if d == 6 { Instr::Di }
            else { Instr::Ei }
        } else if s == 4 {
            Instr::Ccc(d)
        } else if s == 5 {
            if q == 0 { Instr::Push(rp) } else if rp == 0 { Instr::Call } else { Instr::Nop }
        } else if s == 6 {
            Instr::AluImm(d)
        } else {
            Instr::Rst(d)
        }
    }
}

/// Decodes an opcode byte.
pub fn decode_op(op: u8) -> (r: Instr)
    ensures
        r == decode(op),
{
    let g = op / 64;
    let d = (op / 8) % 8;
    let s = op % 8;
    let rp = (op / 16) % 4;
    let q = (op / 8) % 2;
    if g == 0 {
        if s == 0 {
            Instr::Nop
        } else if s == 1 {
            if q == 0 { Instr::Lxi(rp) } else { Instr::Dad(rp) }
        } else if s == 2 {
            if d == 0 { Instr::Stax(0) }
            else if d == 1 { Instr::Ldax(0) }
            else if d == 2 { Instr::Stax(1) }
            else if d == 3 { Instr::Ldax(1) }
            else if d == 4 { Instr::Shld }
            else if d == 5 { Instr::Lhld }
            else if d == 6 { Instr::Sta }
            else { Instr::Lda }
        } else if s == 3 {
            if q == 0 { Instr::Inx(rp) } else { Instr::Dcx(rp) }
        } else if s == 4 {
            Instr::Inr(d)
        } else if s == 5 {
            Instr::Dcr(d)
        } else if s == 6 {
            Instr::Mvi(d)
        } else {
            if d == 0 { Instr::Rlc }
            else if d == 1 { Instr::Rrc }
            else if d == 2 { Instr::Ral }
            else if d == 3 { Instr::Rar }
            else if d == 4 { Instr::Daa }
            else if d == 5 { Instr::Cma }
            else if d == 6 { Instr::Stc }
            else { Instr::Cmc }
        }
    } else if g == 1 {
        if op == 0x76 { Instr::Hlt } else { Instr::Mov(d, s) }
    } else if g == 2 {
        Instr::Alu(d, s)
    } else {
        if s == 0 {
            Instr::Rcc(d)
        } else if s == 1 {
            if q == 0 { Instr::Pop(rp) }
            else if rp == 0 { Instr::Ret }
            else if rp == 1 { Instr::Nop }
            else if rp == 2 { Instr::Pchl }
            else { Instr::Sphl }
        } else if s == 2 {
            Instr::Jcc(d)
        } else if s == 3 {
            if d == 0 { Instr::Jmp }
            else if d == 1 { Instr::Nop }
            else if d == 2 { Instr::Out }
            else if d == 3 { Instr::In }
            else if d == 4 { Instr::Xthl }
            else if d == 5 { Instr::Xchg }
            else if d == 6 { Instr::Di }
            else { Instr::Ei }
        } else if s == 4 {
            Instr::Ccc(d)
        } else if s == 5 {
            if q == 0 { Instr::Push(rp) } else if rp == 0 { Instr::Call } else { Instr::Nop }
        } else if s == 6 {
            Instr::AluImm(d)
        } else {
            Instr::Rst(d)
        }
    }
}

/// Length in bytes of an encoded instruction: the opcode and its immediate operand.
pub open spec fn instr_len(i: Instr) -> nat {
    match i {
        Instr::Lxi(_) | Instr::Shld | Instr::Lhld | Instr::Sta | Instr::Lda | Instr::Jcc(_)
        | Instr::Jmp | Instr::Ccc(_) | Instr::Call => 3,
        Instr::Mvi(_) | Instr::AluImm(_) | Instr::Out | Instr::In => 2,
        _ => 1,
    }
}

/// Published cycle count of an instruction (conditional calls and returns at their
/// not-taken cost); operands in memory (`M`, selector 6) cost more.
pub open spec fn instr_cycles(i: Instr) -> nat {
    match i {
        Instr::Nop | Instr::Rlc | Instr::Rrc | Instr::Ral | Instr::Rar | Instr::Daa | Instr::Cma
        | Instr::Stc | Instr::Cmc | Instr::Xchg | Instr::Di | Instr::Ei => 4,
        Instr::Inx(_) | Instr::Dcx(_) | Instr::Rcc(_) | Instr::Pchl | Instr::Sphl => 5,
        Instr::Stax(_) | Instr::Ldax(_) | Instr::AluImm(_) | Instr::Hlt => 7,
        Instr::Lxi(_) | Instr::Dad(_) | Instr::Ret | Instr::Pop(_) | Instr::Jcc(_) | Instr::Jmp
        | Instr::Out | Instr::In => 10,
        Instr::Ccc(_) | Instr::Push(_) | Instr::Rst(_) => 11,
        Instr::Sta | Instr::Lda => 13,
        Instr::Shld | Instr::Lhld => 16,
        Instr::Call => 17,
        Instr::Xthl => 18,
        Instr::Inr(r) | Instr::Dcr(r) => if r == 6 { 10 } else { 5 },
        Instr::Mvi(r) => if r == 6 { 10 } else { 7 },
        Instr::Mov(d, s) => if d == 6 || s == 6 { 7 } else { 5 },
        Instr::Alu(_, s) => if s == 6 { 7 } else { 4 },
    }
}

impl Instr {
    /// Length in bytes of the encoded instruction.
    pub fn len(&self) -> (r: usize)
        ensures
            r == instr_len(*self),
    {
        match self {
            Instr::Lxi(_) | Instr::Shld | Instr::Lhld | Instr::Sta | Instr::Lda | Instr::Jcc(_)
            | Instr::Jmp | Instr::Ccc(_) | Instr::Call => 3,
            Instr::Mvi(_) | Instr::AluImm(_) | Instr::Out | Instr::In => 2,
            _ => 1,
        }
    }

    /// Cycle count of the instruction.
    pub fn cycles(&self) -> (r: usize)
        ensures
            r == instr_cycles(*self),
    {
        match *self {
            Instr::Nop | Instr::Rlc | Instr::Rrc | Instr::Ral | Instr::Rar | Instr::Daa
            | Instr::Cma | Instr::Stc | Instr::Cmc | Instr::Xchg | Instr::Di | Instr::Ei => 4,
            Instr::Inx(_) | Instr::Dcx(_) | Instr::Rcc(_) | Instr::Pchl | Instr::Sphl => 5,
            Instr::Stax(_) | Instr::Ldax(_) | Instr::AluImm(_) | Instr::Hlt => 7,
            Instr::Lxi(_) | Instr::Dad(_) | Instr::Ret | Instr::Pop(_) | Instr::Jcc(_)
            | Instr::Jmp | Instr::Out | Instr::In => 10,
            Instr::Ccc(_) | Instr::Push(_) | Instr::Rst(_) => 11,
            Instr::Sta | Instr::Lda => 13,
            Instr::Shld | Instr::Lhld => 16,
            Instr::Call => 17,
            Instr::Xthl => 18,
            Instr::Inr(r) | Instr::Dcr(r) => if r == 6 { 10 } else { 5 },
            Instr::Mvi(r) => if r == 6 { 10 } else { 7 },
            Instr::Mov(d, s) => if d == 6 || s == 6 { 7 } else { 5 },
            Instr::Alu(_, s) => if s == 6 { 7 } else { 4 },
        }
    }
}

/// Every opcode byte decodes to an instruction of one, two or three bytes whose
/// cycle count is one of the published 8080 counts.
pub proof fn lemma_decode_total(op: u8)
    ensures
        1 <= instr_len(decode(op)) <= 3,
        instr_cycles(decode(op)) == 4 || instr_cycles(decode(op)) == 5
            || instr_cycles(decode(op)) == 7 || instr_cycles(decode(op)) == 10
            || instr_cycles(decode(op)) == 11 || instr_cycles(decode(op)) == 13
            || instr_cycles(decode(op)) == 16 || instr_cycles(decode(op)) == 17
            || instr_cycles(decode(op)) == 18,
{
}

/// Name of register selector `r`.
pub open spec fn reg_name(r: u8) -> Seq<char> {
    if r == 0 { "B"@ }
    else if r == 1 { "C"@ }
    else if r == 2 { "D"@ }
    else if r == 3 { "E"@ }
    else if r == 4 { "H"@ }
    else if r == 5 { "L"@ }
    else if r == 6 { "M"@ }
    else { "A"@ }
}

/// Name of pair selector `rp`; the fourth pair is PSW for the stack and SP elsewhere.
pub open spec fn pair_name(rp: u8, stack: bool) -> Seq<char> {
    if rp == 0 { "BC"@ }
    else if rp == 1 { "DE"@ }
    else if rp == 2 { "HL"@ }
    else if stack { "PSW"@ }
    else { "SP"@ }
}

/// Name of condition selector `cc`.
pub open spec fn cond_name(cc: u8) -> Seq<char> {
    if cc == 0 { "NZ"@ }
    else if cc == 1 { "Z"@ }
    else if cc == 2 { "NC"@ }
    else if cc == 3 { "C"@ }
    else if cc == 4 { "PO"@ }
    else if cc == 5 { "PE"@ }
    else if cc == 6 { "P"@ }
    else { "M"@ }
}

/// Name of ALU selector `op` with a register operand.
pub open spec fn alu_name(op: u8) -> Seq<char> {
    if op == 0 { "ADD"@ }
    else if op == 1 { "ADC"@ }
    else if op == 2 { "SUB"@ }
    else if op == 3 { "SBB"@ }
    else if op == 4 { "ANA"@ }
    else if op == 5 { "XRA"@ }
    else if op == 6 { "ORA"@ }
    else { "CMP"@ }
}

/// Name of ALU selector `op` with an immediate operand.
pub open spec fn alu_imm_name(op: u8) -> Seq<char> {
    if op == 0 { "ADI"@ }
    else if op == 1 { "ACI"@ }
    else if op == 2 { "SUI"@ }
    else if op == 3 { "SBI"@ }
    else if op == 4 { "ANI"@ }
    else if op == 5 { "XRI"@ }
    else if op == 6 { "ORI"@ }
    else { "CPI"@ }
}

/// Two-digit number of a restart vector.
pub open spec fn rst_name(n: u8) -> Seq<char> {
    if n == 0 { "00"@ }
    else if n == 1 { "01"@ }
    else if n == 2 { "02"@ }
    else if n == 3 { "03"@ }
    else if n == 4 { "04"@ }
    else if n == 5 { "05"@ }
    else if n == 6 { "06"@ }
    else { "07"@ }
}

/// Assembly mnemonic of an instruction; `#` stands for an immediate operand.
pub open spec fn mnemonic(i: Instr) -> Seq<char> {
    match i {
        Instr::Nop => "NOP"@,
        Instr::Lxi(rp) => "LXI "@ + pair_name(rp, false) + ",#"@,
        Instr::Stax(rp) => "STAX "@ + pair_name(rp, false),
        Instr::Ldax(rp) => "LDAX "@ + pair_name(rp, false),
        Instr::Shld => "SHLD"@,
        Instr::Lhld => "LHLD"@,
        Instr::Sta => "STA"@,
        Instr::Lda => "LDA"@,
        Instr::Inx(rp) => "INX "@ + pair_name(rp, false),
        Instr::Dcx(rp) => "DCX "@ + pair_name(rp, false),
        Instr::Dad(rp) => "DAD "@ + pair_name(rp, false),
        Instr::Inr(r) => "INR "@ + reg_name(r),
        Instr::Dcr(r) => "DCR "@ + reg_name(r),
        Instr::Mvi(r) => "MVI "@ + reg_name(r) + ",#"@,
        Instr::Rlc => "RLC"@,
        Instr::Rrc => "RRC"@,
        Instr::Ral => "RAL"@,
        Instr::Rar => "RAR"@,
        Instr::Daa => "DAA"@,
        Instr::Cma => "CMA"@,
        Instr::Stc => "STC"@,
        Instr::Cmc => "CMC"@,
        Instr::Hlt => "HLT"@,
        Instr::Mov(d, r) => "MOV "@ + reg_name(d) + ","@ + reg_name(r),
        Instr::Alu(op, r) => alu_name(op) + " "@ + reg_name(r),
        Instr::AluImm(op) => alu_imm_name(op) + " #"@,
        Instr::Rcc(cc) => "R"@ + cond_name(cc),
        Instr::Ret => "RET"@,
        Instr::Pop(rp) => "POP "@ + pair_name(rp, true),
        Instr::Pchl => "PCHL"@,
        Instr::Sphl => "SPHL"@,
        Instr::Jcc(cc) => "J"@ + cond_name(cc),
        Instr::Jmp => "JMP"@,
        Instr::Out => "OUT"@,
        Instr::In => "IN"@,
        Instr::Xthl => "XTHL"@,
        Instr::Xchg => "XCHG"@,
        Instr::Di => "DI"@,
        Instr::Ei => "EI"@,
        Instr::Ccc(cc) => "C"@ + cond_name(cc),
        Instr::Push(rp) => "PUSH "@ + pair_name(rp, true),
        Instr::Call => "CALL"@,
        Instr::Rst(n) => "RST "@ + rst_name(n),
    }
}

fn reg_text(r: u8) -> (t: &'static str)
    ensures
        t@ == reg_name(r),
{
    match r {
        0 => "B",
        1 => "C",
        2 => "D",
        3 => "E",
        4 => "H",
        5 => "L",
        6 => "M",
        _ => "A",
    }
}

fn pair_text(rp: u8, stack: bool) -> (t: &'static str)
    ensures
        t@ == pair_name(rp, stack),
{
    match rp {
        0 => "BC",
        1 => "DE",
        2 => "HL",
        _ => if stack { "PSW" } else { "SP" },
    }
}

fn cond_text(cc: u8) -> (t: &'static str)
    ensures
        t@ == cond_name(cc),
{
    match cc {
        0 => "NZ",
        1 => "Z",
        2 => "NC",
        3 => "C",
        4 => "PO",
        5 => "PE",
        6 => "P",
        _ => "M",
    }
}

fn alu_text(op: u8) -> (t: &'static str)
    ensures
        t@ == alu_name(op),
{
    match op {
        0 => "ADD",
        1 => "ADC",
        2 => "SUB",
        3 => "SBB",
        4 => "ANA",
        5 => "XRA",
        6 => "ORA",
        _ => "CMP",
    }
}

fn alu_imm_text(op: u8) -> (t: &'static str)
    ensures
        t@ == alu_imm_name(op),
{
    match op {
        0 => "ADI",
        1 => "ACI",
        2 => "SUI",
        3 => "SBI",
        4 => "ANI",
        5 => "XRI",
        6 => "ORI",
        _ => "CPI",
    }
}

fn rst_text(n: u8) -> (t: &'static str)
    ensures
        t@ == rst_name(n),
{
    match n {
        0 => "00",
        1 => "01",
        2 => "02",
        3 => "03",
        4 => "04",
        5 => "05",
        6 => "06",
        _ => "07",
    }
}

/// `a` followed by `b`.
fn cat(a: &str, b: &str) -> (r: String)
    ensures
        r@ == a@ + b@,
{
    let mut r = a.to_owned();
    r.append(b);
    r
}

/// `a`, `b` and `c` in a row.
fn cat3(a: &str, b: &str, c: &str) -> (r: String)
    ensures
        r@ == a@ + b@ + c@,
{
    let mut r = a.to_owned();
    r.append(b);
    r.append(c);
    r
}

/// The assembly mnemonic of `i`.
pub fn mnemonic_of(i: Instr) -> (r: String)
    ensures
        r@ == mnemonic(i),
{
    match i {
        Instr::Nop => "NOP".to_owned(),
        Instr::Lxi(rp) => cat3("LXI ", pair_text(rp, false), ",#"),
        Instr::Stax(rp) => cat("STAX ", pair_text(rp, false)),
        Instr::Ldax(rp) => cat("LDAX ", pair_text(rp, false)),
        Instr::Shld => "SHLD".to_owned(),
        Instr::Lhld => "LHLD".to_owned(),
        Instr::Sta => "STA".to_owned(),
        Instr::Lda => "LDA".to_owned(),
        Instr::Inx(rp) => cat("INX ", pair_text(rp, false)),
        Instr::Dcx(rp) => cat("DCX ", pair_text(rp, false)),
        Instr::Dad(rp) => cat("DAD ", pair_text(rp, false)),
        Instr::Inr(r) => cat("INR ", reg_text(r)),
        Instr::Dcr(r) => cat("DCR ", reg_text(r)),
        Instr::Mvi(r) => cat3("MVI ", reg_text(r), ",#"),
        Instr::Rlc => "RLC".to_owned(),
        Instr::Rrc => "RRC".to_owned(),
        Instr::Ral => "RAL".to_owned(),
        Instr::Rar => "RAR".to_owned(),
        Instr::Daa => "DAA".to_owned(),
        Instr::Cma => "CMA".to_owned(),
        Instr::Stc => "STC".to_owned(),
        Instr::Cmc => "CMC".to_owned(),
        Instr::Hlt => "HLT".to_owned(),
        Instr::Mov(d, r) => {
            let mut t = cat3("MOV ", reg_text(d), ",");
            t.append(reg_text(r));
            t
        },
        Instr::Alu(op, r) => cat3(alu_text(op), " ", reg_text(r)),
        Instr::AluImm(op) => cat(alu_imm_text(op), " #"),
        Instr::Rcc(cc) => cat("R", cond_text(cc)),
        Instr::Ret => "RET".to_owned(),
        Instr::Pop(rp) => cat("POP ", pair_text(rp, true)),
        Instr::Pchl => "PCHL".to_owned(),
        Instr::Sphl => "SPHL".to_owned(),
        Instr::Jcc(cc) => cat("J", cond_text(cc)),
        Instr::Jmp => "JMP".to_owned(),
        Instr::Out => "OUT".to_owned(),
        Instr::In => "IN".to_owned(),
        Instr::Xthl => "XTHL".to_owned(),
        Instr::Xchg => "XCHG".to_owned(),
        Instr::Di => "DI".to_owned(),
        Instr::Ei => "EI".to_owned(),
        Instr::Ccc(cc) => cat("C", cond_text(cc)),
        Instr::Push(rp) => cat("PUSH ", pair_text(rp, true)),
        Instr::Call => "CALL".to_owned(),
        Instr::Rst(n) => cat("RST ", rst_text(n)),
    }
}

/// One disassembled instruction.
pub struct Opcode {
    /// Address of the opcode byte.
    pub index: usize,
    pub opcode: u8,
    pub name: String,
    /// Length in bytes, the opcode included.
    pub len: usize,
    /// Cycle count.
    pub duration: usize,
    /// The immediate bytes, in the order they follow the opcode.
    pub args: Vec<u8>,
}

impl Opcode {
    /// Disassembles the instruction at address `index` from the four bytes that
    /// start there.
    pub fn new(buffer: &[u8; 4], index: usize) -> (r: Opcode)
        ensures
            r.index == index,
            r.opcode == buffer[0],
            r.name@ == mnemonic(decode(buffer[0])),
            r.len == instr_len(decode(buffer[0])),
            r.duration == instr_cycles(decode(buffer[0])),
            r.args@ == buffer@.subrange(1, r.len as int),
    {
        let opcode = buffer[0];
        let ins = decode_op(opcode);
        let len = ins.len();
        let mut args: Vec<u8> = Vec::new();
        if len >= 2 {
            args.push(buffer[1]);
        }
        if len == 3 {
            args.push(buffer[2]);
        }
        proof {
            lemma_decode_total(opcode);
        }
        assert(args@ =~= buffer@.subrange(1, len as int));
        Opcode { index, opcode, name: mnemonic_of(ins), len, duration: ins.cycles(), args }
    }
}

} // verus!
