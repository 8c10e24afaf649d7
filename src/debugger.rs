use vstd::prelude::*;

verus! {

/// Whether `c` has Unicode's White_Space property, as `char::is_whitespace` reads it.
pub open spec fn is_whitespace(c: char) -> bool {
    let n = c as u32;
    n == 0x20 || (0x09 <= n && n <= 0x0D) || n == 0x85 || n == 0xA0 || n == 0x1680 || (0x2000
        <= n && n <= 0x200A) || n == 0x2028 || n == 0x2029 || n == 0x202F || n == 0x205F || n
        == 0x3000
}

/// `s` without its leading whitespace.
pub open spec fn trim_start(s: Seq<char>) -> Seq<char>
    decreases s.len(),
{
    if s.len() > 0 && is_whitespace(s[0]) {
        trim_start(s.subrange(1, s.len() as int))
    } else {
        s
    }
}

/// `s` without its trailing whitespace.
pub open spec fn trim_end(s: Seq<char>) -> Seq<char>
    decreases s.len(),
{
    if s.len() > 0 && is_whitespace(s.last()) {
        trim_end(s.drop_last())
    } else {
        s
    }
}

/// `s` without leading and trailing whitespace.
pub open spec fn trim_both(s: Seq<char>) -> Seq<char> {
    trim_end(trim_start(s))
}

/// Value of a hexadecimal digit, either case; 16 for any other character.
pub open spec fn digit_value(c: char) -> nat {
    let n = c as u32;
    if 0x30 <= n && n <= 0x39 {
        (n - 0x30) as nat
    } else if 0x61 <= n && n <= 0x66 {
        (n - 0x61 + 10) as nat
    } else if 0x41 <= n && n <= 0x46 {
        (n - 0x41 + 10) as nat
    } else {
        16
    }
}

/// The number that hexadecimal digits `s` write, most significant first.
pub open spec fn hex_number(s: Seq<char>) -> nat
    decreases s.len(),
{
    if s.len() == 0 {
        0
    } else {
        hex_number(s.drop_last()) * 16 + digit_value(s.last())
    }
}

/// What `usize::from_str_radix(s, 16)` accepts: an optional `+`, then one or more
/// hexadecimal digits whose value fits in a `usize`.
pub open spec fn hex_parse(s: Seq<char>) -> Option<usize> {
    let digits = if s.len() > 0 && s[0] == '+' {
        s.subrange(1, s.len() as int)
    } else {
        s
    };
    if digits.len() > 0 && (forall|i: int| 0 <= i < digits.len() ==> digit_value(#[trigger] digits[i]) < 16)
        && hex_number(digits) <= usize::MAX {
        Some(hex_number(digits) as usize)
    } else {
        None
    }
}

/// Relies on `str::trim`: the string without leading and trailing whitespace.
#[verifier::external_body]
fn trim(s: &str) -> (r: &str)
    ensures
        r@ == trim_both(s@),
{
    s.trim()
}

/// Relies on `usize::from_str_radix` in base 16; an error becomes `None`.
#[verifier::external_body]
fn parse_hex(s: &str) -> (r: Option<usize>)
    ensures
        r == hex_parse(s@),
{
    usize::from_str_radix(s, 16).ok()
}

/// Relies on `str::strip_prefix` with a `char` pattern: the rest of the string after
/// a leading `c`, or `None` when it does not start with `c`.
#[verifier::external_body]
fn strip_prefix(s: &str, c: char) -> (r: Option<&str>)
    ensures
        s@.len() > 0 && s@[0] == c ==> r.is_some() && r.unwrap()@ == s@.subrange(1, s@.len() as int),
        !(s@.len() > 0 && s@[0] == c) ==> r.is_none(),
{
    s.strip_prefix(c)
}

/// The step counter after a command that reads as hexadecimal address `address`, or
/// as a count `count` of instructions to run: an address sets a breakpoint there;
/// otherwise the breakpoint is cleared and the count, 0 when there is none, is set.
pub open spec fn apply_effect(c: Counter, address: Option<usize>, count: Option<usize>) -> Counter {
    match address {
        Some(x) => Counter { line: Some(x), ..c },
        None => Counter {
            line: None,
            add: match count {
                Some(n) => n,
                None => 0,
            },
        },
    }
}

/// The count that a command line gives: what follows a leading `:`, in hexadecimal.
pub open spec fn command_count(input: Seq<char>) -> Option<usize> {
    if input.len() > 0 && input[0] == ':' {
        hex_parse(trim_both(input.subrange(1, input.len() as int)))
    } else {
        None
    }
}

/// Where the single-step debugger stops next: at a breakpoint address, or once a
/// count of instructions has run.
#[derive(Debug, Clone, Copy, PartialEq, Eq, Structural)]
pub struct Counter {
    pub line: Option<usize>,
    pub add: usize,
}

impl Counter {
    /// A counter that stops at every instruction.
    pub fn new() -> (r: Counter)
        ensures
            r == (Counter { line: None, add: 0 }),
    {
        Counter { line: None, add: 0 }
    }

    /// Whether the debugger stops with PC at `pc`: at the breakpoint, or, with no
    /// breakpoint, once the count has run out.
    pub fn valid(&self, pc: usize) -> (r: bool)
        ensures
            r == (self.line == Some(pc) || (self.line is None && self.add == 0)),
    {
        match self.line {
            Some(l) => l == pc,
            None => self.add == 0,
        }
    }

    /// Whether the debugger shows the state after each instruction: while a count
    /// runs, or when no breakpoint is set.
    pub fn tracing(&self) -> (r: bool)
        ensures
            r == (self.add > 0 || self.line is None),
    {
        self.add > 0 || self.line.is_none()
    }

    /// Counts one instruction off the count.
    pub fn decrement(&mut self)
        ensures
            final(self).line == old(self).line,
            final(self).add == if old(self).add > 0 { old(self).add - 1 } else { 0 },
    {
        if self.add > 0 {
            self.add -= 1;
        }
    }

    /// Applies a command that reads as address `address` or as count `count`.
    pub fn apply(&mut self, address: Option<usize>, count: Option<usize>)
        ensures
            *final(self) == apply_effect(*old(self), address, count),
    {
        match address {
            Some(x) => self.line = Some(x),
            None => {
                self.line = None;
                self.add = match count {
                    Some(n) => n,
                    None => 0,
                };
            },
        }
    }

    /// Applies a debugger command line: a hexadecimal address sets a breakpoint;
    /// `:n` (hexadecimal) clears it and runs `n` instructions; anything else clears
    /// both.
    pub fn command(&mut self, input: &str)
        ensures
            *final(self) == apply_effect(
                *old(self),
                hex_parse(trim_both(input@)),
                command_count(input@),
            ),
    {
        let address = parse_hex(trim(input));
        let count = match strip_prefix(input, ':') {
            Some(rest) => parse_hex(trim(rest)),
            None => None,
        };
        self.apply(address, count);
    }
}

} // verus!
