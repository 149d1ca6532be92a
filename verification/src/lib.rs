//! A minimal freestanding verification harness.
//!
//! The harness exists to show, at build time, that the referenced JSON
//! libraries compile and link without the standard library. It performs no
//! computation of its own: a loader would transfer control to an entry stub
//! that spins forever, and an unrecoverable fault is answered by a panic
//! policy that discards the fault descriptor and likewise halts forward
//! progress forever. The decisions of those two components live here,
//! verified; the surrounding spin loop and the freestanding attribute
//! plumbing live outside the library.

use vstd::prelude::*;

// Link-time dependency assertion: the referenced libraries are named so that
// the build must compile and link them, while no function, type or value of
// theirs is ever invoked.
#[allow(unused_imports)]
use pbjson;
#[allow(unused_imports)]
use pbjson_types;

verus! {

/// A fault descriptor: the source location at which an unrecoverable fault
/// was reported. The panic policy deliberately discards it — in a
/// freestanding environment there is no console to report it to.
pub struct Fault {
    pub line: u32,
    pub column: u32,
}

impl Fault {
    /// Builds a descriptor for a fault reported at the given source location.
    pub fn new(line: u32, column: u32) -> (fault: Fault)
        ensures
            fault.line == line,
            fault.column == column,
    {
        Fault { line, column }
    }
}

/// Whether a turn of the idle loop ever signals an exit: it does not.
/// The loop body performs no operation, so this holds of every turn alike.
pub open spec fn idle_exit_signal() -> bool {
    false
}

/// One turn of the idle loop that the entry stub spins in: it performs no
/// work and never signals an exit, so the surrounding loop never terminates.
pub fn idle_step() -> (exit: bool)
    ensures
        exit == idle_exit_signal(),
        !exit,
{
    false
}

/// The panic policy's one decision, taken when an unrecoverable fault is
/// reported: discard the descriptor, emit nothing, and never signal an exit,
/// so that the fault handler halts forward progress forever. It holds of an
/// arbitrary fault descriptor — nothing of the descriptor is read.
pub fn panic_policy(_fault: &Fault) -> (exit: bool)
    ensures
        !exit,
{
    false
}

/// Whether the idle loop is still running after the given number of turns:
/// it ran every earlier turn and no turn so far signalled an exit.
pub open spec fn idle_running_after(turns: nat) -> bool
    decreases turns,
{
    if turns == 0 {
        true
    } else {
        idle_running_after((turns - 1) as nat) && !idle_exit_signal()
    }
}

/// Law: once control reaches the entry stub, it never returns — no turn of
/// the idle loop signals an exit, so after any number of turns the loop is
/// still running, and there is no reachable path out of it.
pub proof fn lemma_entry_stub_never_returns(turns: nat)
    ensures
        idle_running_after(turns),
    decreases turns,
{
    if turns > 0 {
        lemma_entry_stub_never_returns((turns - 1) as nat);
    }
}

/// Law: the panic policy never returns control to its caller — whatever
/// fault descriptor it was invoked with, its decision is to keep halting,
/// and the idle loop it then spins in is still running after any number of
/// turns.
pub proof fn lemma_panic_policy_never_returns(fault: Fault, turns: nat)
    ensures
        idle_running_after(turns),
{
    lemma_entry_stub_never_returns(turns);
}

} // verus!
