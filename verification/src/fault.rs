//! Unrecoverable-fault entry points.  On this device a fatal condition has
//! no recovery path and no diagnostic channel: execution halts permanently
//! and nothing is written again.  The model makes that terminal state
//! explicit through the machine's outcome.

use vstd::prelude::*;

use crate::machine::Machine;
use crate::machine::Outcome;
use crate::machine::machine_unchanged;

verus! {

/// The machine `post` is `pre` halted: nothing moved but the outcome.
pub open spec fn halts(pre: Machine, post: Machine) -> bool {
    &&& post.outcome == Outcome::Halted
    &&& post.regs() == pre.regs()
    &&& post.writes@ == pre.writes@
    &&& post.r12 == pre.r12
    &&& post.stack@ == pre.stack@
}

/// The arithmetic-fault entry point.  Once it is reached the machine idles
/// forever: no further register store, no further side effect of any kind.
pub fn except_add_overflow(m: &mut Machine)
    ensures
        halts(*old(m), *final(m)),
{
    m.outcome = Outcome::Halted;
}

/// The panic entry point: like any unrecoverable fault, it halts the machine
/// permanently without touching a register.
pub fn panic_fmt(m: &mut Machine)
    ensures
        halts(*old(m), *final(m)),
{
    m.outcome = Outcome::Halted;
}

/// The unwinding personality routine.  This firmware never unwinds, so the
/// routine does nothing at all: every part of the machine is left exactly as
/// it was.
pub fn eh_personality(m: &mut Machine)
    ensures
        machine_unchanged(*old(m), *final(m)),
{
}

} // verus!
