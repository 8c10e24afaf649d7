use vstd::prelude::*;

use crate::memory::{ROM_SIZE, VIDEO_SIZE, VIDEO_START};
use crate::opcode::lemma_decode_total;
use crate::processor::{step, step_cycles, wrap16, CpuState, Processor};

verus! {

/// Clock rate of the cabinet's processor, in cycles per second.
pub const CPU_F: u32 = 2_000_000;

/// Timer units per processor cycle: the timer counts thirds of a cycle so that a
/// half-frame, `CPU_F / 60` cycles, is a whole number of units.
pub const TIMER_STEP: u32 = 3;

/// Timer units in a half-frame: `3 * CPU_F / 60`.
pub const HALF_FRAME: u32 = 100_000;

/// Timer units in a whole frame.
pub const FRAME: u32 = 200_000;

/// Cycles that an `IN` or `OUT` takes.
pub const IO_CYCLES: usize = 10;

/// A cabinet control.
#[derive(Debug, Clone, Copy, PartialEq, Eq, Structural)]
pub enum Key {
    Credit,
    Start2P,
    Start1P,
    Shoot,
    Left,
    Right,
}

/// A control pressed or released.
#[derive(Debug, Clone, Copy, PartialEq, Eq, Structural)]
pub struct KeycodeState {
    pub code: Key,
    pub pressed: bool,
}

/// Bit of input port 1 that a control drives.
pub open spec fn key_bit(k: Key) -> u8 {
    match k {
        Key::Credit => 0x01,
        Key::Start2P => 0x02,
        Key::Start1P => 0x04,
        Key::Shoot => 0x10,
        Key::Left => 0x20,
        Key::Right => 0x40,
    }
}

/// Input port 1 after a control changes: its bit is set on press, cleared on release.
pub open spec fn latch(p: u8, state: KeycodeState) -> u8 {
    if state.pressed {
        p | key_bit(state.code)
    } else {
        p & !key_bit(state.code)
    }
}

/// What the shift register shows on port 3: the 16-bit value `hi:lo` shifted right
/// by `8 - amt`, low byte.
pub open spec fn shift_read(hi: u8, lo: u8, amt: u8) -> u8 {
    (((((hi as u16) << 8u16) | (lo as u16)) >> ((8 - amt % 8) as u16)) & 0xFF) as u8
}

/// The byte that `IN port` reads: port 1 is the control latch, port 3 the shift
/// register; other ports leave A as it is.
pub open spec fn port_in(ip: Seq<u8>, op: Seq<u8>, a: u8, port: u8) -> u8 {
    if port == 1 {
        ip[1]
    } else if port == 3 {
        shift_read(op[4], ip[3], op[2])
    } else {
        a
    }
}

/// Input and output ports after `OUT port` of `v`: port 2 takes the shift amount,
/// port 4 shifts a new high byte in; writes to other ports are discarded.
pub open spec fn port_out(ip: Seq<u8>, op: Seq<u8>, port: u8, v: u8) -> (Seq<u8>, Seq<u8>) {
    if port == 2 {
        (ip, op.update(2, v & 0x07))
    } else if port == 4 {
        (ip.update(3, op[4]), op.update(4, v))
    } else {
        (ip, op)
    }
}

/// One instruction of the cabinet from processor state `c` and ports `ip`, `op`:
/// the processor, the ports and the cycles taken. `IN` and `OUT` are served from
/// the ports; everything else is the processor's own step. A halted processor is
/// not fetched from.
pub open spec fn machine_step(c: CpuState, ip: Seq<u8>, op: Seq<u8>) -> (
    CpuState,
    Seq<u8>,
    Seq<u8>,
    nat,
) {
    let opcode = c.fetch(0);
    let port = c.fetch(1);
    if !c.halted && opcode == 0xDB {
        (
            CpuState { a: port_in(ip, op, c.a, port), pc: wrap16(c.pc + 2), ..c },
            ip,
            op,
            IO_CYCLES as nat,
        )
    } else if !c.halted && opcode == 0xD3 {
        let (ip2, op2) = port_out(ip, op, port, c.a);
        (CpuState { pc: wrap16(c.pc + 2), ..c }, ip2, op2, IO_CYCLES as nat)
    } else {
        (step(c), ip, op, step_cycles(c))
    }
}

/// The interrupt that a timer tick from `phase` raises: 1 at mid-frame, 2 at the
/// end of the frame, 0 for none.
pub open spec fn tick_kind(phase: u32) -> u8 {
    if phase + TIMER_STEP >= FRAME {
        2
    } else if phase < HALF_FRAME && phase + TIMER_STEP >= HALF_FRAME {
        1
    } else {
        0
    }
}

/// The video-beam timer: counts processor cycles and raises the mid-frame and
/// end-of-frame interrupts.
#[derive(Debug, Clone, Copy, PartialEq, Eq, Structural)]
pub struct FrameTimer {
    /// Position in the frame, in thirds of a cycle.
    pub phase: u32,
}

impl FrameTimer {
    /// A timer at the start of a frame.
    pub fn new() -> (r: FrameTimer)
        ensures
            r.phase == 0,
    {
        FrameTimer { phase: 0 }
    }

    pub open spec fn wf(self) -> bool {
        self.phase < FRAME
    }

    /// Advances by one processor cycle and returns the interrupt due, 0 for none.
    pub fn tick(&mut self) -> (r: u8)
        requires
            old(self).wf(),
        ensures
            final(self).phase == (old(self).phase + TIMER_STEP) % FRAME as int,
            r == tick_kind(old(self).phase),
    {
        let p = self.phase + TIMER_STEP;
        if p >= FRAME {
            self.phase = p - FRAME;
            2
        } else if self.phase < HALF_FRAME && p >= HALF_FRAME {
            self.phase = p;
            1
        } else {
            self.phase = p;
            0
        }
    }
}

/// The cabinet: the processor, its input and output ports, the cycle budget of the
/// instruction in flight, and the frame timer.
#[derive(Debug)]
pub struct Machine {
    pub cpu: Processor,
    pub ip: [u8; 8],
    pub op: [u8; 8],
    /// Cycles left of the instruction in flight, after the current one.
    pub budget: usize,
    pub timer: FrameTimer,
}

impl Machine {
    pub open spec fn wf(&self) -> bool {
        self.timer.wf()
    }

    /// A cabinet at power-on with `rom` loaded.
    pub fn new(rom: [u8; ROM_SIZE]) -> (r: Machine)
        ensures
            r.cpu@ == crate::processor::reset_state(rom@),
            r.ip@ == seq![0u8; 8],
            r.op@ == seq![0u8; 8],
            r.budget == 0,
            r.timer.phase == 0,
            r.timer.phase == phase_after(0),
            r.wf(),
    {
        let r = Machine {
            cpu: Processor::new(rom),
            ip: [0; 8],
            op: [0; 8],
            budget: 0,
            timer: FrameTimer::new(),
        };
        assert(r.ip@ =~= seq![0u8; 8]);
        assert(r.op@ =~= seq![0u8; 8]);
        r
    }

    /// Reads input port `port`.
    pub fn input(&self, port: u8) -> (r: u8)
        ensures
            r == port_in(self.ip@, self.op@, self.cpu.a, port),
    {
        match port {
            1 => self.ip[1],
            3 => (((((self.op[4] as u16) << 8u16) | (self.ip[3] as u16)) >> ((8 - self.op[2] % 8)
                as u16)) & 0xFF) as u8,
            _ => self.cpu.a,
        }
    }

    /// Writes `db` to output port `port`.
    pub fn output(&mut self, port: u8, db: u8)
        ensures
            (final(self).ip@, final(self).op@) == port_out(old(self).ip@, old(self).op@, port, db),
            final(self).cpu == old(self).cpu,
            final(self).budget == old(self).budget,
            final(self).timer == old(self).timer,
    {
        match port {
            2 => {
                self.op[2] = db & 0x07;
            },
            4 => {
                self.ip[3] = self.op[4];
                self.op[4] = db;
            },
            _ => {},
        }
    }

    /// Records a control pressed or released in input port 1.
    pub fn key_state_change(&mut self, state: KeycodeState)
        ensures
            final(self).ip@ == old(self).ip@.update(1, latch(old(self).ip@[1], state)),
            final(self).op == old(self).op,
            final(self).cpu == old(self).cpu,
            final(self).budget == old(self).budget,
            final(self).timer == old(self).timer,
    {
        let bit: u8 = match state.code {
            Key::Credit => 0x01,
            Key::Start2P => 0x02,
            Key::Start1P => 0x04,
            Key::Shoot => 0x10,
            Key::Left => 0x20,
            Key::Right => 0x40,
        };
        if state.pressed {
            self.ip[1] = self.ip[1] | bit;
        } else {
            self.ip[1] = self.ip[1] & !bit;
        }
    }

    /// Runs one instruction and returns its cycles. `IN` and `OUT` are served here
    /// from the ports; everything else goes to the processor. A halted processor
    /// is not fetched from.
    pub fn exec(&mut self) -> (r: usize)
        ensures
            (final(self).cpu@, final(self).ip@, final(self).op@, r as nat) == machine_step(
                old(self).cpu@,
                old(self).ip@,
                old(self).op@,
            ),
            r >= 4,
            final(self).budget == old(self).budget,
            final(self).timer == old(self).timer,
    {
        let pc = self.cpu.pc;
        let opcode = self.cpu.mem.read(pc as usize);
        let port = self.cpu.mem.read(pc.wrapping_add(1) as usize);
        proof {
            lemma_decode_total(opcode);
        }
        if self.cpu.halted {
            self.cpu.exec()
        } else if opcode == 0xDB {
            self.cpu.a = self.input(port);
            self.cpu.pc = pc.wrapping_add(2);
            IO_CYCLES
        } else if opcode == 0xD3 {
            self.output(port, self.cpu.a);
            self.cpu.pc = pc.wrapping_add(2);
            IO_CYCLES
        } else {
            self.cpu.exec()
        }
    }

    /// Raises interrupt `screen_end` (1 at mid-frame, 2 at the end of the frame);
    /// 0 raises none.
    fn map_video(&mut self, screen_end: u8)
        requires
            screen_end < 8,
        ensures
            final(self).cpu@ == if screen_end > 0 {
                crate::processor::accept_interrupt(old(self).cpu@, screen_end as int)
            } else {
                old(self).cpu@
            },
            final(self).ip == old(self).ip,
            final(self).op == old(self).op,
            final(self).budget == old(self).budget,
            final(self).timer == old(self).timer,
    {
        if screen_end > 0 {
            self.cpu.interrupt(screen_end as usize);
        }
    }

    /// Whether the instruction in flight is done, so that the next cycle fetches.
    pub fn ready(&self) -> (r: bool)
        ensures
            r == (self.budget == 0),
    {
        self.budget == 0
    }

    /// Runs one processor cycle: when no instruction is in flight, the next one runs
    /// and its cycles, this one included, become the budget; otherwise the budget
    /// drops by one. Then the frame timer ticks, and the interrupt it raises, if any,
    /// is delivered and returned (0 for none; 2 marks a finished frame).
    pub fn clock(&mut self) -> (r: u8)
        requires
            old(self).wf(),
        ensures
            final(self).wf(),
            r == tick_kind(old(self).timer.phase),
            final(self).timer.phase == (old(self).timer.phase + TIMER_STEP) % FRAME as int,
            ({
                let (c, ip, op, cycles) = if old(self).budget == 0 {
                    machine_step(old(self).cpu@, old(self).ip@, old(self).op@)
                } else {
                    (old(self).cpu@, old(self).ip@, old(self).op@, old(self).budget as nat)
                };
                &&& final(self).budget == cycles - 1
                &&& final(self).cpu@ == if r > 0 {
                    crate::processor::accept_interrupt(c, r as int)
                } else {
                    c
                }
                &&& final(self).ip@ == ip
                &&& final(self).op@ == op
            }),
    {
        let ghost before = (self.cpu@, self.ip@, self.op@, self.budget as nat);
        if self.budget == 0 {
            let cycles = self.exec();
            self.budget = cycles - 1;
            proof {
                before = machine_step(before.0, before.1, before.2);
            }
        } else {
            self.budget = self.budget - 1;
        }
        let n = self.timer.tick();
        self.map_video(n);
        n
    }

    /// A copy of the video buffer.
    pub fn video(&self) -> (r: Vec<u8>)
        ensures
            r@ == self.cpu.mem@.subrange(VIDEO_START as int, (VIDEO_START + VIDEO_SIZE) as int),
    {
        let mut r: Vec<u8> = Vec::with_capacity(VIDEO_SIZE);
        let mut i: usize = 0;
        while i < VIDEO_SIZE
            invariant
                i <= VIDEO_SIZE,
                self.cpu.mem@.len() == crate::memory::MEM_SIZE,
                r@ == self.cpu.mem@.subrange(VIDEO_START as int, (VIDEO_START + i) as int),
            decreases VIDEO_SIZE - i,
        {
            r.push(self.cpu.mem.read(VIDEO_START + i));
            i = i + 1;
            assert(r@ =~= self.cpu.mem@.subrange(VIDEO_START as int, (VIDEO_START + i) as int));
        }
        r
    }
}

/// Interrupts that the frame timer raises in the first `n` cycles after power-on.
pub open spec fn interrupts_by(n: nat) -> nat {
    (TIMER_STEP as nat * n) / (HALF_FRAME as nat)
}

/// The frame timer's phase after `n` cycles from power-on.
pub open spec fn phase_after(n: nat) -> u32 {
    ((TIMER_STEP as nat * n) % (FRAME as nat)) as u32
}

/// Interrupts that ticks `t`, `t + 1`, ..., `t + w - 1` raise, ticks counted from
/// power-on.
pub open spec fn raised(t: nat, w: nat) -> nat
    decreases w,
{
    if w == 0 {
        0
    } else {
        raised(t, (w - 1) as nat) + if tick_kind(phase_after((t + w - 1) as nat)) != 0 {
            1nat
        } else {
            0nat
        }
    }
}

/// Tick `n` after power-on moves the timer to the next phase and raises an interrupt
/// exactly when one more half-frame has passed: RST 1 when the count becomes odd,
/// RST 2 when it becomes even.
pub proof fn lemma_tick_schedule(n: nat)
    ensures
        (phase_after(n) + TIMER_STEP) % (FRAME as int) == phase_after(n + 1),
        interrupts_by(n + 1) == interrupts_by(n) || interrupts_by(n + 1) == interrupts_by(n) + 1,
        tick_kind(phase_after(n)) == if interrupts_by(n + 1) == interrupts_by(n) {
            0u8
        } else if interrupts_by(n + 1) % 2 == 1 {
            1u8
        } else {
            2u8
        },
{
    let x = 3 * n;
    let q = x / 200000;
    let p = x % 200000;
    assert(x == 200000 * q + p);
    assert(x / 100000 == 2 * q + p / 100000);
    if p + 3 >= 200000 {
        assert(x + 3 == 200000 * (q + 1) + (p + 3 - 200000));
        assert((x + 3) % 200000 == p + 3 - 200000);
        assert((x + 3) / 100000 == 2 * (q + 1));
    } else {
        assert((x + 3) % 200000 == p + 3);
        assert((x + 3) / 100000 == 2 * q + (p + 3) / 100000);
    }
}

/// The interrupts raised in a run of `w` ticks from tick `t` are those that the
/// count of half-frames gains over it.
pub proof fn lemma_raised(t: nat, w: nat)
    ensures
        raised(t, w) == interrupts_by(t + w) - interrupts_by(t),
        interrupts_by(t) <= interrupts_by(t + w),
    decreases w,
{
    if w > 0 {
        lemma_raised(t, (w - 1) as nat);
        lemma_tick_schedule((t + w - 1) as nat);
    }
}

/// In any window of 1,000,000 cycles after power-on the frame timer raises exactly 30
/// interrupts, 60 per simulated second.
pub proof fn lemma_thirty_per_window(t: nat)
    ensures
        raised(t, 1_000_000) == 30,
{
    lemma_raised(t, 1_000_000);
    assert((3 * (t + 1_000_000)) / 100000 == (3 * t) / 100000 + 30);
}

/// The interrupts alternate: of two ticks with no interrupt between them, if both
/// raise one, one raises RST 1 and the other RST 2.
pub proof fn lemma_alternate(n: nat, m: nat)
    requires
        n < m,
        tick_kind(phase_after(n)) != 0,
        tick_kind(phase_after(m)) != 0,
        raised(n + 1, (m - n - 1) as nat) == 0,
    ensures
        tick_kind(phase_after(n)) != tick_kind(phase_after(m)),
{
    lemma_tick_schedule(n);
    lemma_tick_schedule(m);
    lemma_raised(n + 1, (m - n - 1) as nat);
}

/// Ticks from power-on follow the schedule: a timer at `phase_after(n)` that ticks is
/// at `phase_after(n + 1)`. `Machine::new` starts at `phase_after(0)` and each
/// `Machine::clock` ticks once, returning `tick_kind` of the phase it ticks from, so
/// the interrupts a machine raises are those that `raised` counts.
pub proof fn lemma_timer_follows(timer: FrameTimer, n: nat)
    requires
        timer.phase == phase_after(n),
    ensures
        timer.wf(),
        ((timer.phase + TIMER_STEP) % (FRAME as int)) as u32 == phase_after(n + 1),
{
    lemma_tick_schedule(n);
}

} // verus!
