//! Interrupt-safe mutual exclusion discipline.
//!
//! Any state shared between normal-context code and handler-context code may
//! only be touched inside a scoped region that disables maskable interrupt
//! delivery, acquires exclusive access, performs the operation, releases the
//! access, and restores the prior interrupt-enable state — in that order.
//! On a single-core machine a handler spinning on a lock that interrupted
//! normal code holds is a guaranteed deadlock: no other code exists to
//! release it. The discipline makes that interleaving impossible, which
//! [`lemma_handler_never_blocks`] states: whenever interrupt delivery is
//! possible at all, the lock is free.

use vstd::prelude::*;

verus! {

/// The one processor's interrupt-delivery state. Concurrency arises solely
/// from asynchronous interrupt delivery, so this single flag decides whether
/// handler context can preempt normal context at all.
#[derive(Debug, Clone, Copy, PartialEq, Eq, Structural)]
pub struct Cpu {
    pub interrupts_enabled: bool,
}

/// Exclusive access to one shared resource: the spinning lock's state.
#[derive(Debug, Clone, Copy, PartialEq, Eq, Structural)]
pub struct ResourceLock {
    pub held: bool,
}

/// What a critical section saves on entry in order to restore the prior
/// interrupt-enable state on exit, even on early return.
#[derive(Debug, Clone, Copy, PartialEq, Eq, Structural)]
pub struct CriticalGuard {
    pub saved_enabled: bool,
}

/// The discipline's invariant, identical for every protected resource: while
/// interrupt delivery is enabled, the lock is free. Normal context only holds
/// the lock inside a region that first disabled delivery, so an arriving
/// handler can never find it taken.
pub open spec fn discipline_inv(cpu: Cpu, lock: ResourceLock) -> bool {
    cpu.interrupts_enabled ==> !lock.held
}

/// Enters a critical section from normal context: disables interrupt
/// delivery if not already disabled, then acquires exclusive access. Normal
/// context never runs while it already holds the lock (a handler could not
/// have released it), so acquisition succeeds without spinning.
pub fn begin_critical(cpu: &mut Cpu, lock: &mut ResourceLock) -> (g: CriticalGuard)
    requires
        discipline_inv(*old(cpu), *old(lock)),
        !old(lock).held,
    ensures
        g.saved_enabled == old(cpu).interrupts_enabled,
        !final(cpu).interrupts_enabled,
        final(lock).held,
        discipline_inv(*final(cpu), *final(lock)),
{
    let saved_enabled = cpu.interrupts_enabled;
    cpu.interrupts_enabled = false;
    lock.held = true;
    CriticalGuard { saved_enabled }
}

/// Leaves a critical section: releases exclusive access, then restores the
/// interrupt-enable state saved on entry. The order matters: delivery is
/// only re-enabled once the lock is free, so the invariant is re-established
/// before any handler can run.
pub fn end_critical(cpu: &mut Cpu, lock: &mut ResourceLock, g: CriticalGuard)
    requires
        old(lock).held,
        !old(cpu).interrupts_enabled,
    ensures
        !final(lock).held,
        final(cpu).interrupts_enabled == g.saved_enabled,
        discipline_inv(*final(cpu), *final(lock)),
{
    lock.held = false;
    cpu.interrupts_enabled = g.saved_enabled;
}

/// A handler's access to a shared resource: it must not spin, so it only
/// observes whether the resource is available and takes it when it is,
/// reporting a skipped (deferrable) access otherwise.
pub fn handler_try_acquire(lock: &mut ResourceLock) -> (acquired: bool)
    ensures
        acquired == !old(lock).held,
        acquired ==> final(lock).held,
        !acquired ==> *final(lock) == *old(lock),
{
    if lock.held {
        false
    } else {
        lock.held = true;
        true
    }
}

/// Releases a handler's acquisition.
pub fn handler_release(lock: &mut ResourceLock)
    requires
        old(lock).held,
    ensures
        !final(lock).held,
{
    lock.held = false;
}

/// Deadlock freedom under reentry: a handler only runs when the hardware
/// could deliver an interrupt, that is while delivery was enabled; under the
/// discipline's invariant the lock is then free, so the handler's
/// [`handler_try_acquire`] succeeds at once and never spins. A critical
/// section in normal context can therefore never be interrupted by a handler
/// that blocks on the same resource.
pub proof fn lemma_handler_never_blocks(cpu: Cpu, lock: ResourceLock)
    requires
        discipline_inv(cpu, lock),
        cpu.interrupts_enabled,
    ensures
        !lock.held,
{
}

/// The whole discipline applied to one shared word, as every subsystem
/// applies it: mask, acquire, operate, release, unmask. The resource holds
/// the written value afterwards, the lock is free again, and the prior
/// interrupt-enable state is restored exactly.
pub fn protected_write(cpu: &mut Cpu, lock: &mut ResourceLock, resource: &mut u64, value: u64)
    requires
        discipline_inv(*old(cpu), *old(lock)),
        !old(lock).held,
    ensures
        *final(resource) == value,
        !final(lock).held,
        final(cpu).interrupts_enabled == old(cpu).interrupts_enabled,
        discipline_inv(*final(cpu), *final(lock)),
{
    let g = begin_critical(cpu, lock);
    *resource = value;
    end_critical(cpu, lock, g);
}

} // verus!
