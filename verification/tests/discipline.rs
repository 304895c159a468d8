//! The interrupt-safe mutual exclusion discipline: masking order, state
//! restoration, and deadlock freedom when a handler needs a resource that
//! normal context guards.

use yarhos::locking::{
    begin_critical, end_critical, handler_release, handler_try_acquire, protected_write, Cpu,
    ResourceLock,
};

#[test]
fn critical_section_masks_then_locks_then_restores() {
    let mut cpu = Cpu { interrupts_enabled: true };
    let mut lock = ResourceLock { held: false };

    let g = begin_critical(&mut cpu, &mut lock);
    // Delivery is off while the lock is held, so no handler can preempt the
    // critical section and spin on the same lock.
    assert!(!cpu.interrupts_enabled);
    assert!(lock.held);

    end_critical(&mut cpu, &mut lock, g);
    assert!(!lock.held);
    assert!(cpu.interrupts_enabled);
}

#[test]
fn nested_style_entry_with_delivery_already_disabled_stays_disabled() {
    let mut cpu = Cpu { interrupts_enabled: false };
    let mut lock = ResourceLock { held: false };

    let g = begin_critical(&mut cpu, &mut lock);
    assert!(!cpu.interrupts_enabled);
    end_critical(&mut cpu, &mut lock, g);
    // The prior state is restored exactly: delivery stays disabled.
    assert!(!cpu.interrupts_enabled);
}

#[test]
fn handler_skips_a_held_resource_and_proceeds_once_released() {
    let mut lock = ResourceLock { held: true };
    // A handler raised while the resource is busy observes it as
    // unavailable and defers instead of spinning.
    assert!(!handler_try_acquire(&mut lock));
    assert!(lock.held);

    // Once the owner releases, forward progress resumes.
    lock.held = false;
    assert!(handler_try_acquire(&mut lock));
    assert!(lock.held);
    handler_release(&mut lock);
    assert!(!lock.held);
}

#[test]
fn reentry_scenario_makes_no_deadlock() {
    // Normal context takes the resource under the discipline.
    let mut cpu = Cpu { interrupts_enabled: true };
    let mut lock = ResourceLock { held: false };
    let g = begin_critical(&mut cpu, &mut lock);

    // Synthetically raise an interrupt inside the critical section: the
    // hardware cannot deliver it, because the discipline disabled delivery
    // before taking the lock.
    let deliverable_inside = cpu.interrupts_enabled;
    assert!(!deliverable_inside);

    // After the section ends, delivery is possible again and the handler
    // finds the resource free at once: it never spins.
    end_critical(&mut cpu, &mut lock, g);
    assert!(cpu.interrupts_enabled);
    assert!(handler_try_acquire(&mut lock));
    handler_release(&mut lock);
}

#[test]
fn protected_write_updates_resource_and_restores_everything() {
    let mut cpu = Cpu { interrupts_enabled: true };
    let mut lock = ResourceLock { held: false };
    let mut shared: u64 = 7;

    protected_write(&mut cpu, &mut lock, &mut shared, 42);
    assert_eq!(shared, 42);
    assert!(!lock.held);
    assert!(cpu.interrupts_enabled);

    // The discipline is identical whatever the prior delivery state was.
    cpu.interrupts_enabled = false;
    protected_write(&mut cpu, &mut lock, &mut shared, 99);
    assert_eq!(shared, 99);
    assert!(!lock.held);
    assert!(!cpu.interrupts_enabled);
}
