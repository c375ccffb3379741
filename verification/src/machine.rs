//! The machine state: memory-mapped registers, CPU state, and the ordered
//! trace of register stores.

use vstd::prelude::*;

verus! {

/// Watchdog password; the upper byte of every watchdog-control store must
/// carry it, or the device resets.
pub const WDTPW: u16 = 0x5A00;

/// Watchdog hold bit: stops the watchdog counter.
pub const WDTHOLD: u16 = 0x0080;

/// Timer clock-source select: the sub-main clock.
pub const TASSEL_2: u16 = 0x0200;

/// Timer mode select: count up to the compare limit, continuously.
pub const MC_1: u16 = 0x0010;

/// Compare-match interrupt enable for the timer's first compare block.
pub const CCIE: u16 = 0x0010;

/// Turns the second (external) oscillator path off.
pub const XT2OFF: u8 = 0x80;

/// Lowest bit of the resistor-trimmed internal oscillator range select.
pub const RSEL0: u8 = 0x01;

/// Global interrupt-enable bit of the status register.
pub const GIE: u8 = 0x08;

/// CPU-off bit of the status register: while set, the CPU sleeps.
pub const CPUOFF: u8 = 0x10;

/// The output-port bit that drives the LED.
pub const LED2: u8 = 0x40;

/// Counts per LED toggle: the value programmed into the timer compare limit.
pub const TIMER_LIMIT: u16 = 32000;

/// One store to a memory-mapped register, with the value stored.
#[derive(Clone, Copy, Debug, PartialEq, Eq, Structural)]
pub enum RegWrite {
    /// Basic clock system control.
    Bcsctl1(u8),
    /// Watchdog control.
    Wdtctl(u16),
    /// Port 1 output level.
    P1out(u8),
    /// Port 1 direction (1 = output).
    P1dir(u8),
    /// Timer compare limit.
    Ta0ccr0(u16),
    /// Timer compare-control (interrupt enable).
    Ta0cctl0(u16),
    /// Timer control (clock source and mode; starts the count).
    Ta0ctl(u16),
}

/// Whether the machine is still executing, or has halted permanently after an
/// unrecoverable fault.
#[derive(Clone, Copy, Debug, PartialEq, Eq, Structural)]
pub enum Outcome {
    Running,
    Halted,
}

/// The memory-mapped registers together with the status register: everything
/// the firmware configures or the handler observes.
#[derive(Clone, Copy, Debug, PartialEq, Eq, Structural)]
pub struct Regs {
    /// Basic clock system control.
    pub bcsctl1: u8,
    /// Watchdog control.
    pub wdtctl: u16,
    /// Port 1 output level.
    pub p1out: u8,
    /// Port 1 direction.
    pub p1dir: u8,
    /// Timer compare limit.
    pub ta0ccr0: u16,
    /// Timer compare-control.
    pub ta0cctl0: u16,
    /// Timer control.
    pub ta0ctl: u16,
    /// Status register: interrupt-enable and sleep bits.
    pub sr: u8,
}

/// The whole machine: the register file, the one working register the handler
/// uses, the stack the interrupt mechanism and the handler push to, the
/// ordered trace of stores to memory-mapped registers, and whether the
/// machine has halted.
pub struct Machine {
    /// Basic clock system control.
    pub bcsctl1: u8,
    /// Watchdog control.
    pub wdtctl: u16,
    /// Port 1 output level.
    pub p1out: u8,
    /// Port 1 direction.
    pub p1dir: u8,
    /// Timer compare limit.
    pub ta0ccr0: u16,
    /// Timer compare-control.
    pub ta0cctl0: u16,
    /// Timer control.
    pub ta0ctl: u16,
    /// Status register.
    pub sr: u8,
    /// The general-purpose working register the handler borrows.
    pub r12: u16,
    /// The stack: interrupt entry pushes the status register here, and the
    /// handler saves its working register here.
    pub stack: Vec<u16>,
    /// Every store to a memory-mapped register, oldest first.
    pub writes: Vec<RegWrite>,
    /// Running, or halted after an unrecoverable fault.
    pub outcome: Outcome,
}

impl Machine {
    /// The register file this machine currently holds.
    pub open spec fn regs(self) -> Regs {
        Regs {
            bcsctl1: self.bcsctl1,
            wdtctl: self.wdtctl,
            p1out: self.p1out,
            p1dir: self.p1dir,
            ta0ccr0: self.ta0ccr0,
            ta0cctl0: self.ta0cctl0,
            ta0ctl: self.ta0ctl,
            sr: self.sr,
        }
    }

    /// The machine has not taken an unrecoverable fault.
    pub open spec fn running(self) -> bool {
        self.outcome == Outcome::Running
    }
}

/// The register file of a machine fresh out of power-up reset: the status
/// register is cleared by hardware, and the model starts every other cell at
/// zero.  The initializer overwrites every cell it relies on, so these
/// defaults carry no hidden state into the initialized machine.
pub open spec fn reset_regs() -> Regs {
    Regs {
        bcsctl1: 0,
        wdtctl: 0,
        p1out: 0,
        p1dir: 0,
        ta0ccr0: 0,
        ta0cctl0: 0,
        ta0ctl: 0,
        sr: 0,
    }
}

/// The register file after one store to a memory-mapped register.
pub open spec fn apply_write(r: Regs, w: RegWrite) -> Regs {
    match w {
        RegWrite::Bcsctl1(v) => Regs { bcsctl1: v, ..r },
        RegWrite::Wdtctl(v) => Regs { wdtctl: v, ..r },
        RegWrite::P1out(v) => Regs { p1out: v, ..r },
        RegWrite::P1dir(v) => Regs { p1dir: v, ..r },
        RegWrite::Ta0ccr0(v) => Regs { ta0ccr0: v, ..r },
        RegWrite::Ta0cctl0(v) => Regs { ta0cctl0: v, ..r },
        RegWrite::Ta0ctl(v) => Regs { ta0ctl: v, ..r },
    }
}

/// `post` is `pre` after exactly one store `w` to a memory-mapped register:
/// the store lands in the register file, is appended to the trace, and
/// nothing else moves.
pub open spec fn steps_to(pre: Machine, post: Machine, w: RegWrite) -> bool {
    &&& post.regs() == apply_write(pre.regs(), w)
    &&& post.writes@ == pre.writes@.push(w)
    &&& post.r12 == pre.r12
    &&& post.stack@ == pre.stack@
    &&& post.outcome == pre.outcome
}

/// Nothing in the machine moved between `pre` and `post`.
pub open spec fn machine_unchanged(pre: Machine, post: Machine) -> bool {
    &&& post.regs() == pre.regs()
    &&& post.writes@ == pre.writes@
    &&& post.r12 == pre.r12
    &&& post.stack@ == pre.stack@
    &&& post.outcome == pre.outcome
}

impl Machine {
    /// A machine fresh out of power-up reset: register file at its reset
    /// defaults, empty stack, no stores performed yet, running.
    pub fn at_reset() -> (m: Machine)
        ensures
            m.regs() == reset_regs(),
            m.r12 == 0,
            m.stack@ == Seq::<u16>::empty(),
            m.writes@ == Seq::<RegWrite>::empty(),
            m.running(),
    {
        Machine {
            bcsctl1: 0,
            wdtctl: 0,
            p1out: 0,
            p1dir: 0,
            ta0ccr0: 0,
            ta0cctl0: 0,
            ta0ctl: 0,
            sr: 0,
            r12: 0,
            stack: Vec::new(),
            writes: Vec::new(),
            outcome: Outcome::Running,
        }
    }

    /// Store to the clock control register.
    pub fn write_bcsctl1(&mut self, v: u8)
        requires
            old(self).running(),
        ensures
            steps_to(*old(self), *final(self), RegWrite::Bcsctl1(v)),
    {
        self.bcsctl1 = v;
        self.writes.push(RegWrite::Bcsctl1(v));
    }

    /// Store to the watchdog control register.
    pub fn write_wdtctl(&mut self, v: u16)
        requires
            old(self).running(),
        ensures
            steps_to(*old(self), *final(self), RegWrite::Wdtctl(v)),
    {
        self.wdtctl = v;
        self.writes.push(RegWrite::Wdtctl(v));
    }

    /// Store to the port output register.
    pub fn write_p1out(&mut self, v: u8)
        requires
            old(self).running(),
        ensures
            steps_to(*old(self), *final(self), RegWrite::P1out(v)),
    {
        self.p1out = v;
        self.writes.push(RegWrite::P1out(v));
    }

    /// Store to the port direction register.
    pub fn write_p1dir(&mut self, v: u8)
        requires
            old(self).running(),
        ensures
            steps_to(*old(self), *final(self), RegWrite::P1dir(v)),
    {
        self.p1dir = v;
        self.writes.push(RegWrite::P1dir(v));
    }

    /// Store to the timer compare-limit register.
    pub fn write_ta0ccr0(&mut self, v: u16)
        requires
            old(self).running(),
        ensures
            steps_to(*old(self), *final(self), RegWrite::Ta0ccr0(v)),
    {
        self.ta0ccr0 = v;
        self.writes.push(RegWrite::Ta0ccr0(v));
    }

    /// Store to the timer compare-control register.
    pub fn write_ta0cctl0(&mut self, v: u16)
        requires
            old(self).running(),
        ensures
            steps_to(*old(self), *final(self), RegWrite::Ta0cctl0(v)),
    {
        self.ta0cctl0 = v;
        self.writes.push(RegWrite::Ta0cctl0(v));
    }

    /// Store to the timer control register.
    pub fn write_ta0ctl(&mut self, v: u16)
        requires
            old(self).running(),
        ensures
            steps_to(*old(self), *final(self), RegWrite::Ta0ctl(v)),
    {
        self.ta0ctl = v;
        self.writes.push(RegWrite::Ta0ctl(v));
    }

    /// Load from the port output register: reads the cell itself, never a
    /// cached copy.
    pub fn read_p1out(&self) -> (v: u8)
        ensures
            v == self.p1out,
    {
        self.p1out
    }
}

} // verus!
