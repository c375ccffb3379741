//! The timer compare-match interrupt: hardware entry, the handler itself,
//! and the proofs that the LED strictly alternates while every other part of
//! the interrupted context is preserved.

use vstd::prelude::*;

use crate::init::init_step;
use crate::machine::CCIE;
use crate::machine::GIE;
use crate::machine::LED2;
use crate::machine::Machine;
use crate::machine::RegWrite;
use crate::machine::Regs;
use crate::machine::reset_regs;

verus! {

/// The LED is currently driven high.
pub open spec fn led_on(r: Regs) -> bool {
    r.p1out & LED2 != 0
}

/// The register file after one full compare-match event (interrupt entry,
/// handler, return from interrupt): the LED bit of the output register is
/// inverted and every other cell, the status register included, is exactly
/// as it was.
pub open spec fn event_step(r: Regs) -> Regs {
    Regs { p1out: r.p1out ^ LED2, ..r }
}

/// The register file after `n` successive compare-match events.
pub open spec fn after_events(r: Regs, n: nat) -> Regs
    decreases n,
{
    if n == 0 {
        r
    } else {
        event_step(after_events(r, (n - 1) as nat))
    }
}

/// The stores to memory-mapped registers that `n` successive compare-match
/// events perform, in order: one output-register store per event.
pub open spec fn events_writes(r: Regs, n: nat) -> Seq<RegWrite>
    decreases n,
{
    if n == 0 {
        Seq::empty()
    } else {
        events_writes(r, (n - 1) as nat).push(RegWrite::P1out(after_events(r, n).p1out))
    }
}

proof fn lemma_xor_led_toggles(x: u8)
    by (bit_vector)
    ensures
        ((x ^ LED2) & LED2 != 0) == !(x & LED2 != 0),
        (x ^ LED2) ^ LED2 == x,
{
}

/// The LED output strictly alternates: after any event it is the inverse of
/// what it was after the event before.
pub proof fn lemma_led_alternates(r: Regs, n: nat)
    ensures
        led_on(after_events(r, n + 1)) == !led_on(after_events(r, n)),
{
    assert(after_events(r, n + 1) == event_step(after_events(r, n)));
    lemma_xor_led_toggles(after_events(r, n).p1out);
}

/// After `n` events the LED level is the starting level for even `n` and its
/// inverse for odd `n`: the blink period is exactly two timer periods.
pub proof fn lemma_led_parity(r: Regs, n: nat)
    ensures
        led_on(after_events(r, n)) == if n % 2 == 0 {
            led_on(r)
        } else {
            !led_on(r)
        },
    decreases n,
{
    if n > 0 {
        lemma_led_parity(r, (n - 1) as nat);
        lemma_led_alternates(r, (n - 1) as nat);
    }
}

/// The whole system, end to end: booting from a cold reset leaves the LED
/// low, and after any number of timer periods the LED is high exactly after
/// the odd-numbered compare-match events.
pub proof fn lemma_blink_from_reset(n: nat)
    ensures
        !led_on(init_step(reset_regs())),
        led_on(after_events(init_step(reset_regs()), n)) == (n % 2 == 1),
{
    assert(0u8 & LED2 == 0) by (bit_vector);
    lemma_led_parity(init_step(reset_regs()), n);
}

/// Compare-match events touch nothing but the output register: the clock,
/// watchdog, timer and status registers still hold what initialization left
/// in them, however many events have run.
pub proof fn lemma_events_touch_only_output(r: Regs, n: nat)
    ensures
        after_events(r, n) == (Regs { p1out: after_events(r, n).p1out, ..r }),
    decreases n,
{
    if n > 0 {
        lemma_events_touch_only_output(r, (n - 1) as nat);
    }
}

/// Hardware interrupt entry.  When the timer's count reaches the compare
/// limit while the compare-match interrupt and global interrupts are both
/// enabled, the hardware pushes the status register onto the stack
/// (zero-extended to a stack word) and clears it, waking the CPU into the
/// handler with further interrupts disabled.  The program counter is saved
/// and restored by the same mechanism but lies outside this register model.
pub fn interrupt_entry(m: &mut Machine)
    requires
        old(m).running(),
        old(m).sr & GIE != 0,
        old(m).ta0cctl0 & CCIE != 0,
    ensures
        final(m).regs() == (Regs { sr: 0, ..old(m).regs() }),
        final(m).stack@ == old(m).stack@.push(old(m).sr as u16),
        final(m).writes@ == old(m).writes@,
        final(m).r12 == old(m).r12,
        final(m).outcome == old(m).outcome,
{
    let saved: u16 = m.sr as u16;
    m.stack.push(saved);
    m.sr = 0;
}

/// The timer interrupt handler, as entered with the hardware's stack frame
/// (the saved status register) on top of the stack.  It saves the one working
/// register it uses, inverts the LED bit of the output register, restores the
/// working register, and returns from the interrupt, which pops the saved
/// status register back into place — so the CPU resumes exactly the sleep
/// state it was suspended from.
pub fn toggle_led2(m: &mut Machine)
    requires
        old(m).running(),
        old(m).stack@.len() >= 1,
        old(m).stack@.last() <= 0xFF,
    ensures
        final(m).regs() == (Regs {
            p1out: old(m).p1out ^ LED2,
            sr: old(m).stack@.last() as u8,
            ..old(m).regs()
        }),
        final(m).stack@ == old(m).stack@.drop_last(),
        final(m).writes@ == old(m).writes@.push(RegWrite::P1out(old(m).p1out ^ LED2)),
        final(m).r12 == old(m).r12,
        final(m).outcome == old(m).outcome,
{
    let ghost s0 = m.stack@;
    // save the working register
    m.stack.push(m.r12);
    proof {
        assert(m.stack@.drop_last() =~= s0);
    }
    // load the output register, invert the LED bit, store it back
    let v: u8 = m.read_p1out();
    m.r12 = v as u16;
    let t: u16 = m.r12 ^ (LED2 as u16);
    proof {
        assert(t <= 0xFF && t as u8 == v ^ LED2) by (bit_vector)
            requires
                t == (v as u16) ^ (LED2 as u16),
        ;
    }
    m.write_p1out(t as u8);
    // restore the working register
    m.r12 = m.stack.pop().unwrap();
    // return from interrupt: the saved status register comes back
    let w: u16 = m.stack.pop().unwrap();
    m.sr = w as u8;
}

/// One full compare-match event: the hardware takes the interrupt, the
/// handler toggles the LED, and the return from interrupt restores the
/// status register.  Afterwards the register file is `event_step` of what it
/// was — in particular the sleep and interrupt-enable bits are back — and
/// the working register and stack are untouched.
pub fn timer_compare_match_event(m: &mut Machine)
    requires
        old(m).running(),
        old(m).sr & GIE != 0,
        old(m).ta0cctl0 & CCIE != 0,
    ensures
        final(m).regs() == event_step(old(m).regs()),
        final(m).sr == old(m).sr,
        final(m).r12 == old(m).r12,
        final(m).stack@ == old(m).stack@,
        final(m).writes@ == old(m).writes@.push(RegWrite::P1out(old(m).p1out ^ LED2)),
        final(m).outcome == old(m).outcome,
{
    let ghost s0 = m.stack@;
    interrupt_entry(m);
    proof {
        assert(m.stack@.last() == old(m).sr as u16);
        assert(m.stack@.drop_last() =~= s0);
    }
    toggle_led2(m);
    proof {
        let sr0 = old(m).sr;
        assert((sr0 as u16) <= 0xFF && (sr0 as u16) as u8 == sr0) by (bit_vector);
    }
}

/// Run `n` successive compare-match events.  The register file evolves by
/// `after_events`; only the output register moves, one store per event.
pub fn run_timer_events(m: &mut Machine, n: u32)
    requires
        old(m).running(),
        old(m).sr & GIE != 0,
        old(m).ta0cctl0 & CCIE != 0,
    ensures
        final(m).regs() == after_events(old(m).regs(), n as nat),
        final(m).writes@ == old(m).writes@ + events_writes(old(m).regs(), n as nat),
        final(m).r12 == old(m).r12,
        final(m).stack@ == old(m).stack@,
        final(m).outcome == old(m).outcome,
{
    let ghost r0 = m.regs();
    let ghost w0 = m.writes@;
    let mut i: u32 = 0;
    proof {
        assert(w0 + events_writes(r0, 0) =~= w0);
    }
    while i < n
        invariant
            i <= n,
            m.running(),
            m.regs() == after_events(r0, i as nat),
            m.writes@ == w0 + events_writes(r0, i as nat),
            m.r12 == old(m).r12,
            m.stack@ == old(m).stack@,
            m.outcome == old(m).outcome,
            r0.sr & GIE != 0,
            r0.ta0cctl0 & CCIE != 0,
        decreases n - i,
    {
        proof {
            lemma_events_touch_only_output(r0, i as nat);
        }
        timer_compare_match_event(m);
        i = i + 1;
        proof {
            assert(m.regs() == after_events(r0, i as nat));
            assert(m.writes@ =~= w0 + events_writes(r0, i as nat));
        }
    }
}

} // verus!
