//! The hardware initializer: the one-time, order-sensitive boot sequence
//! that takes the machine from reset to "timer armed, interrupts enabled,
//! CPU asleep", and the proofs about the order of its register stores.

use vstd::prelude::*;

use crate::machine::CCIE;
use crate::machine::CPUOFF;
use crate::machine::GIE;
use crate::machine::LED2;
use crate::machine::Machine;
use crate::machine::MC_1;
use crate::machine::RegWrite;
use crate::machine::Regs;
use crate::machine::RSEL0;
use crate::machine::TASSEL_2;
use crate::machine::TIMER_LIMIT;
use crate::machine::WDTHOLD;
use crate::machine::WDTPW;
use crate::machine::XT2OFF;
use crate::machine::steps_to;

verus! {

/// The register file the initializer leaves behind, given the file `r` it
/// started from.  Every cell but the status register is stored outright; the
/// status register has the interrupt-enable and sleep bits set on top of
/// whatever it held.
pub open spec fn init_step(r: Regs) -> Regs {
    Regs {
        bcsctl1: XT2OFF | RSEL0,
        wdtctl: WDTPW | WDTHOLD,
        p1out: 0,
        p1dir: LED2,
        ta0ccr0: TIMER_LIMIT,
        ta0cctl0: CCIE,
        ta0ctl: TASSEL_2 | MC_1,
        sr: r.sr | (GIE | CPUOFF),
    }
}

/// The stores to memory-mapped registers the initializer performs, in order.
pub open spec fn init_writes() -> Seq<RegWrite> {
    seq![
        RegWrite::Bcsctl1(XT2OFF | RSEL0),
        RegWrite::Wdtctl(WDTPW | WDTHOLD),
        RegWrite::P1out(0),
        RegWrite::P1dir(LED2),
        RegWrite::Ta0ccr0(TIMER_LIMIT),
        RegWrite::Ta0cctl0(CCIE),
        RegWrite::Ta0ctl(TASSEL_2 | MC_1),
    ]
}

/// Set the given bits in the status register, leaving all other machine
/// state as it was.  The status register is a CPU register, not a
/// memory-mapped cell, so the store trace does not grow.
pub fn bis_sr(m: &mut Machine, val: u8)
    requires
        old(m).running(),
    ensures
        final(m).regs() == (Regs { sr: old(m).sr | val, ..old(m).regs() }),
        final(m).writes@ == old(m).writes@,
        final(m).r12 == old(m).r12,
        final(m).stack@ == old(m).stack@,
        final(m).outcome == old(m).outcome,
{
    m.sr = m.sr | val;
}

/// The hardware initializer.  Runs once after reset and never returns control
/// in the real device: its last action sets the interrupt-enable and sleep
/// bits together, after which the CPU idles until the timer interrupt fires.
///
/// The sequence is order-sensitive:
/// - the clock select comes first (a single fixed-cycle store), then the
///   watchdog is stopped before anything that could take longer;
/// - the output level is driven low before the pin is turned into an output,
///   so the LED never sees a transient undefined level;
/// - the timer is started (clock source and up-count mode) only after its
///   compare limit and interrupt enable are in place.
pub fn start(m: &mut Machine)
    requires
        old(m).running(),
    ensures
        final(m).regs() == init_step(old(m).regs()),
        final(m).writes@ == old(m).writes@ + init_writes(),
        final(m).r12 == old(m).r12,
        final(m).stack@ == old(m).stack@,
        final(m).outcome == old(m).outcome,
{
    let ghost w0 = m.writes@;
    // cpu at 0.15 MHz: internal oscillator, second oscillator path off
    m.write_bcsctl1(XT2OFF | RSEL0);
    // watchdog off
    m.write_wdtctl(WDTPW | WDTHOLD);
    // configure io: level first, direction second
    m.write_p1out(0);
    m.write_p1dir(LED2);
    // configure and start timer a
    m.write_ta0ccr0(TIMER_LIMIT);
    m.write_ta0cctl0(CCIE);
    m.write_ta0ctl(TASSEL_2 | MC_1);
    proof {
        assert(m.writes@ =~= w0 + init_writes());
    }
    // enable interrupts and turn the cpu off
    bis_sr(m, GIE | CPUOFF);
}

/// Initialization arms the blink loop: it leaves the global interrupt-enable
/// bit and the CPU sleep bit set in the status register, and the
/// compare-match interrupt enabled, whatever the machine held before.
pub proof fn lemma_init_arms_interrupt(r: Regs)
    ensures
        init_step(r).sr & GIE != 0,
        init_step(r).sr & CPUOFF != 0,
        init_step(r).ta0cctl0 & CCIE != 0,
{
    let s: u8 = r.sr;
    assert((s | (GIE | CPUOFF)) & GIE != 0 && (s | (GIE | CPUOFF)) & CPUOFF != 0)
        by (bit_vector);
    assert(CCIE & CCIE != 0) by (bit_vector);
}

/// The store `w` is the watchdog-disable store: the unlock password together
/// with the hold bit, in a single write.
pub open spec fn is_watchdog_disable(w: RegWrite) -> bool {
    w == RegWrite::Wdtctl(WDTPW | WDTHOLD)
}

/// The store `w` is the clock-select store.  It is a single fixed-cycle
/// store; every other kind of store in the boot sequence is the kind the
/// watchdog must not be left armed across.
pub open spec fn is_clock_select(w: RegWrite) -> bool {
    w is Bcsctl1
}

/// The watchdog-disable store occurs in `t`, and the only stores before it
/// are single fixed-cycle clock selects.
pub open spec fn watchdog_disabled_early(t: Seq<RegWrite>) -> bool {
    exists|i: int|
        0 <= i < t.len() && #[trigger] is_watchdog_disable(t[i]) && (forall|j: int|
            0 <= j < i ==> is_clock_select(#[trigger] t[j]))
}

/// Every store that turns a port-1 pin into an output is preceded by a store
/// that drove the output register to zero, with no other output store in
/// between: the pin level is defined (and low) at the moment the pin starts
/// driving.
pub open spec fn output_cleared_before_direction(t: Seq<RegWrite>) -> bool {
    forall|j: int|
        0 <= j < t.len() && (#[trigger] t[j]) is P1dir ==> exists|i: int|
            0 <= i < j && #[trigger] t[i] == RegWrite::P1out(0) && (forall|k: int|
                i < k < j ==> !((#[trigger] t[k]) is P1out))
}

/// The watchdog-disable store comes first in the boot sequence, save for the
/// single fixed-cycle clock select before it.
pub proof fn lemma_watchdog_disabled_early()
    ensures
        watchdog_disabled_early(init_writes()),
{
    let t = init_writes();
    assert(is_watchdog_disable(t[1]));
    assert(forall|j: int| 0 <= j < 1 ==> is_clock_select(#[trigger] t[j]));
}

/// In the boot sequence the output register is cleared before the LED pin is
/// made an output, so the pin never drives an undefined level.
pub proof fn lemma_output_cleared_before_direction()
    ensures
        output_cleared_before_direction(init_writes()),
{
    let t = init_writes();
    assert forall|j: int| 0 <= j < t.len() && (#[trigger] t[j]) is P1dir implies exists|i: int|
        0 <= i < j && #[trigger] t[i] == RegWrite::P1out(0) && (forall|k: int|
            i < k < j ==> !((#[trigger] t[k]) is P1out)) by {
        assert(j == 3);
        assert(t[2] == RegWrite::P1out(0));
        assert(forall|k: int| 2 < k < 3 ==> !((#[trigger] t[k]) is P1out));
    }
}

/// Running the initializer from a cold reset is deterministic: two machines
/// whose status registers hold the reset value end with identical register
/// files, whatever the other cells held.
pub proof fn lemma_init_deterministic(a: Regs, b: Regs)
    requires
        a.sr == 0,
        b.sr == 0,
    ensures
        init_step(a) == init_step(b),
{
}

} // verus!
