//! Boot-sequence behaviour: final register contents, store order, and the
//! fault entry points.

use blink::fault::eh_personality;
use blink::fault::except_add_overflow;
use blink::fault::panic_fmt;
use blink::init::bis_sr;
use blink::init::start;
use blink::machine::Machine;
use blink::machine::Outcome;
use blink::machine::RegWrite;
use blink::machine::CCIE;
use blink::machine::CPUOFF;
use blink::machine::GIE;
use blink::machine::LED2;
use blink::machine::MC_1;
use blink::machine::RSEL0;
use blink::machine::TASSEL_2;
use blink::machine::TIMER_LIMIT;
use blink::machine::WDTHOLD;
use blink::machine::WDTPW;
use blink::machine::XT2OFF;

#[test]
fn scenario_reset_then_start() {
    let mut m = Machine::at_reset();
    start(&mut m);
    assert_eq!(m.wdtctl, WDTPW | WDTHOLD);
    assert_eq!(m.wdtctl, 0x5A80);
    assert_eq!(m.p1dir, LED2);
    assert_eq!(m.p1out, 0);
    assert_eq!(m.bcsctl1, XT2OFF | RSEL0);
    assert_eq!(m.ta0ccr0, TIMER_LIMIT);
    assert_eq!(m.ta0cctl0, CCIE);
    assert_eq!(m.ta0ctl, TASSEL_2 | MC_1);
    assert_ne!(m.ta0ctl & MC_1, 0, "up-count mode must be selected");
    assert_eq!(m.sr, GIE | CPUOFF);
    assert_eq!(m.outcome, Outcome::Running);
}

#[test]
fn start_store_order() {
    let mut m = Machine::at_reset();
    start(&mut m);
    let expected = vec![
        RegWrite::Bcsctl1(XT2OFF | RSEL0),
        RegWrite::Wdtctl(WDTPW | WDTHOLD),
        RegWrite::P1out(0),
        RegWrite::P1dir(LED2),
        RegWrite::Ta0ccr0(TIMER_LIMIT),
        RegWrite::Ta0cctl0(CCIE),
        RegWrite::Ta0ctl(TASSEL_2 | MC_1),
    ];
    assert_eq!(m.writes, expected);
    // The watchdog-disable store is preceded only by the clock select.
    assert_eq!(m.writes[1], RegWrite::Wdtctl(WDTPW | WDTHOLD));
    assert!(matches!(m.writes[0], RegWrite::Bcsctl1(_)));
    // The output register is cleared before the pin becomes an output.
    let clear_at = m
        .writes
        .iter()
        .position(|w| *w == RegWrite::P1out(0))
        .unwrap();
    let dir_at = m
        .writes
        .iter()
        .position(|w| matches!(w, RegWrite::P1dir(_)))
        .unwrap();
    assert!(clear_at < dir_at);
}

#[test]
fn start_is_deterministic_from_cold_reset() {
    // Two machines out of reset, one with garbage in the cells the hardware
    // leaves undefined: initialization ends in identical register files.
    let mut a = Machine::at_reset();
    let mut b = Machine::at_reset();
    b.bcsctl1 = 0xA5;
    b.wdtctl = 0x1234;
    b.p1out = 0xFF;
    b.p1dir = 0x0F;
    b.ta0ccr0 = 7;
    b.ta0cctl0 = 3;
    b.ta0ctl = 0xFFFF;
    start(&mut a);
    start(&mut b);
    assert_eq!(a.bcsctl1, b.bcsctl1);
    assert_eq!(a.wdtctl, b.wdtctl);
    assert_eq!(a.p1out, b.p1out);
    assert_eq!(a.p1dir, b.p1dir);
    assert_eq!(a.ta0ccr0, b.ta0ccr0);
    assert_eq!(a.ta0cctl0, b.ta0cctl0);
    assert_eq!(a.ta0ctl, b.ta0ctl);
    assert_eq!(a.sr, b.sr);
}

#[test]
fn bis_sr_sets_only_the_given_bits() {
    let mut m = Machine::at_reset();
    m.sr = 0x01;
    bis_sr(&mut m, GIE | CPUOFF);
    assert_eq!(m.sr, 0x01 | GIE | CPUOFF);
    assert!(m.writes.is_empty(), "a status-register bit-set is no store");
}

#[test]
fn fault_halts_without_a_store() {
    let mut m = Machine::at_reset();
    start(&mut m);
    let stores_before = m.writes.len();
    let regs_before = (m.wdtctl, m.p1out, m.p1dir, m.sr);
    except_add_overflow(&mut m);
    assert_eq!(m.outcome, Outcome::Halted);
    assert_eq!(m.writes.len(), stores_before);
    assert_eq!((m.wdtctl, m.p1out, m.p1dir, m.sr), regs_before);
}

#[test]
fn panic_halts_without_a_store() {
    let mut m = Machine::at_reset();
    panic_fmt(&mut m);
    assert_eq!(m.outcome, Outcome::Halted);
    assert!(m.writes.is_empty());
    assert_eq!(m.sr, 0);
}

#[test]
fn personality_routine_does_nothing() {
    let mut m = Machine::at_reset();
    start(&mut m);
    let before = (m.p1out, m.sr, m.writes.len(), m.r12);
    eh_personality(&mut m);
    assert_eq!((m.p1out, m.sr, m.writes.len(), m.r12), before);
    assert_eq!(m.outcome, Outcome::Running);
}
