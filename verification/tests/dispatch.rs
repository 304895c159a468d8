//! The initialization sequence and the dispatch machine: table contents,
//! idempotence, fault isolation, recoverability, acknowledgment discipline
//! and vector-table immutability.

use yarhos::gdt;
use yarhos::gdt::{Descriptor, DOUBLE_FAULT_IST_INDEX, FAULT_STACK_SIZE};
use yarhos::interrupts;
use yarhos::interrupts::{
    Controller, HandlerKind, HandlerStack, IdtEntry, InterruptEvent, InterruptStackFrame,
    Termination, BREAKPOINT_VECTOR, DOUBLE_FAULT_VECTOR, KEYBOARD_VECTOR, PIC_1_OFFSET,
    PIC_2_OFFSET, TIMER_VECTOR,
};
use yarhos::{init, Kernel, QemuExitCode, Testable};

fn frame() -> InterruptStackFrame {
    InterruptStackFrame {
        instruction_pointer: 0x1234,
        code_segment: 8,
        cpu_flags: 0x202,
        stack_pointer: 0x8000,
        stack_segment: 0,
    }
}

const STACK_BASE: u64 = 0x10_0000;

fn booted(test_mode: bool) -> Kernel {
    let mut k = Kernel::new(test_mode);
    init(&mut k, STACK_BASE);
    k
}

#[test]
fn gdt_builder_produces_one_code_and_one_tss_descriptor() {
    let g = gdt::init(STACK_BASE);
    assert_eq!(g.code_selector.index, 1);
    assert_eq!(g.code_selector.rpl, 0);
    assert_eq!(g.code_selector.value(), 8);
    // The task-state descriptor occupies two slots, starting at slot 2.
    assert_eq!(g.tss_selector.index, 2);
    assert_eq!(g.tss_selector.value(), 16);
}

#[test]
fn fault_stack_slot_holds_the_region_top() {
    let g = gdt::init(STACK_BASE);
    assert_eq!(FAULT_STACK_SIZE, 4096 * 5);
    assert_eq!(
        g.tss.stack_top(DOUBLE_FAULT_IST_INDEX as usize),
        STACK_BASE + FAULT_STACK_SIZE
    );
    // Every other interrupt-stack slot stays unused.
    for i in 1..7 {
        assert_eq!(g.tss.stack_top(i), 0);
    }
}

#[test]
fn descriptor_slot_widths() {
    assert_eq!(Descriptor::KernelCode.slots(), 1);
    assert_eq!(Descriptor::TaskState.slots(), 2);
}

#[test]
fn vector_table_binds_the_implemented_vectors() {
    let g = gdt::init(STACK_BASE);
    let idt = interrupts::init_idt(&g);
    assert_eq!(
        idt.handler_binding(BREAKPOINT_VECTOR),
        Some(IdtEntry { handler: HandlerKind::Breakpoint, stack_index: None })
    );
    assert_eq!(
        idt.handler_binding(DOUBLE_FAULT_VECTOR),
        Some(IdtEntry {
            handler: HandlerKind::DoubleFault,
            stack_index: Some(DOUBLE_FAULT_IST_INDEX),
        })
    );
    assert_eq!(
        idt.handler_binding(TIMER_VECTOR),
        Some(IdtEntry { handler: HandlerKind::Timer, stack_index: None })
    );
    assert_eq!(
        idt.handler_binding(KEYBOARD_VECTOR),
        Some(IdtEntry { handler: HandlerKind::Keyboard, stack_index: None })
    );
    // Everything else is deliberately unpopulated.
    assert_eq!(idt.handler_binding(0), None);
    assert_eq!(idt.handler_binding(14), None);
    assert_eq!(idt.handler_binding(255), None);
}

#[test]
fn controller_offsets_sit_above_reserved_vectors() {
    assert_eq!(PIC_1_OFFSET, 32);
    assert_eq!(PIC_2_OFFSET, 40);
    let p = interrupts::init_pics();
    assert!(!p.handles_interrupt(31));
    assert!(p.handles_interrupt(32));
    assert!(p.handles_interrupt(39));
    assert!(p.handles_interrupt(40));
    assert!(p.handles_interrupt(47));
    assert!(!p.handles_interrupt(48));
    assert!(!p.is_in_service(Controller::Primary));
    assert!(!p.is_in_service(Controller::Secondary));
    assert_eq!(p.acknowledgment_count(), 0);
}

#[test]
fn initialization_is_idempotent() {
    let mut once = Kernel::new(false);
    init(&mut once, STACK_BASE);
    assert!(once.is_initialized());

    let mut twice = Kernel::new(false);
    init(&mut twice, STACK_BASE);
    init(&mut twice, STACK_BASE);
    assert_eq!(once, twice);

    // Even a third call with a different stack base is safely ignored.
    init(&mut twice, STACK_BASE + 0x1000);
    assert_eq!(once, twice);
}

#[test]
fn breakpoint_reports_and_resumes() {
    let mut k = booted(false);
    let f = frame();
    let stack = k.dispatch_exception(BREAKPOINT_VECTOR, &f);
    assert_eq!(stack, HandlerStack::Current);
    assert_eq!(k.breakpoint_reports, 1);
    assert_eq!(k.terminated, None);
    assert!(k.is_initialized());
}

#[test]
fn repeated_breakpoints_change_nothing_but_the_report_count() {
    let mut one = booted(false);
    let f = frame();
    one.dispatch_exception(BREAKPOINT_VECTOR, &f);

    let mut many = booted(false);
    for _ in 0..1000 {
        let stack = many.dispatch_exception(BREAKPOINT_VECTOR, &f);
        assert_eq!(stack, HandlerStack::Current);
    }
    assert_eq!(many.breakpoint_reports, 1000);
    assert_eq!(many.terminated, None);
    // Apart from the report count the post-states are identical.
    many.breakpoint_reports = one.breakpoint_reports;
    assert_eq!(one, many);
}

#[test]
fn double_fault_runs_on_the_alternate_stack_and_terminates() {
    let mut k = booted(true);
    let exhausted = InterruptStackFrame {
        // A stack overflow leaves the stack pointer just below the guardless
        // normal stack; the handler must not depend on it.
        stack_pointer: 3,
        ..frame()
    };
    let stack = k.dispatch_exception(DOUBLE_FAULT_VECTOR, &exhausted);
    assert_eq!(stack, HandlerStack::Alternate(STACK_BASE + FAULT_STACK_SIZE));
    assert_eq!(k.fault_reports, 1);
    assert_eq!(k.terminated, Some(Termination::Exit(QemuExitCode::Failure)));
}

#[test]
fn double_fault_halts_outside_test_mode() {
    let mut k = booted(false);
    let f = frame();
    k.dispatch_exception(DOUBLE_FAULT_VECTOR, &f);
    assert_eq!(k.terminated, Some(Termination::Halted));
}

#[test]
fn unpopulated_vector_falls_through_to_reset() {
    let mut k = booted(false);
    let f = frame();
    let stack = k.dispatch_exception(13, &f);
    assert_eq!(stack, HandlerStack::Current);
    assert_eq!(k.terminated, Some(Termination::Reset));
    assert_eq!(k.fault_reports, 0);
}

#[test]
fn every_delivered_interrupt_is_acknowledged_exactly_once() {
    let mut k = booted(false);
    let events = vec![
        InterruptEvent::Timer,
        InterruptEvent::Keyboard(0x2C),
        InterruptEvent::Timer,
        InterruptEvent::Timer,
        InterruptEvent::Keyboard(0x1E),
    ];
    let n = k.run_interrupt_stream(&events);
    assert_eq!(n, 5);
    assert_eq!(k.handled_interrupts, 5);
    assert_eq!(k.timer_ticks, 3);
    assert_eq!(k.last_scancode, Some(0x1E));
    match &k.pics {
        Some(p) => {
            assert_eq!(p.acknowledgment_count(), 5);
            assert!(!p.is_in_service(Controller::Primary));
        }
        None => panic!("initialized kernel lost its controllers"),
    }
    // No starvation: a further interrupt is still deliverable.
    let delivered = k.deliver_interrupt(InterruptEvent::Timer);
    assert!(delivered);
    assert_eq!(k.timer_ticks, 4);
}

#[test]
fn unacknowledged_controller_withholds_delivery() {
    let mut k = booted(false);
    match &mut k.pics {
        Some(p) => p.begin_service(Controller::Primary),
        None => panic!("initialized kernel lost its controllers"),
    }
    let delivered = k.deliver_interrupt(InterruptEvent::Timer);
    assert!(!delivered);
    assert_eq!(k.timer_ticks, 0);
    assert_eq!(k.handled_interrupts, 0);
}

#[test]
fn vector_bindings_re_derive_unchanged_after_activity() {
    let mut k = booted(false);
    let mut before = Vec::new();
    for v in 0..=255u8 {
        before.push(k.handler_binding(v));
    }
    let f = frame();
    k.dispatch_exception(BREAKPOINT_VECTOR, &f);
    let events = vec![InterruptEvent::Timer, InterruptEvent::Keyboard(7)];
    k.run_interrupt_stream(&events);
    for v in 0..=255u8 {
        assert_eq!(k.handler_binding(v), before[v as usize]);
    }
}

#[test]
fn exit_codes_match_the_debug_exit_protocol() {
    assert_eq!(QemuExitCode::Success.code(), 0x10);
    assert_eq!(QemuExitCode::Failure.code(), 0x11);
}

#[test]
fn test_runner_reports_success_only_when_all_tests_complete() {
    assert_eq!(yarhos::test_runner(&vec![]), QemuExitCode::Success);
    assert_eq!(yarhos::test_runner(&vec![true, true, true]), QemuExitCode::Success);
    assert_eq!(yarhos::test_runner(&vec![true, false, true]), QemuExitCode::Failure);
}

#[test]
fn should_panic_runner_is_decided_by_the_first_test() {
    assert_eq!(yarhos::test_runner_should_panic(&vec![]), QemuExitCode::Success);
    assert_eq!(yarhos::test_runner_should_panic(&vec![false]), QemuExitCode::Success);
    assert_eq!(yarhos::test_runner_should_panic(&vec![true, false]), QemuExitCode::Failure);
}

#[test]
fn trivial_assertion() {
    assert_eq!(true, true);
}

#[test]
fn empty_interrupt_stream_changes_nothing() {
    let mut k = booted(false);
    let events: Vec<InterruptEvent> = vec![];
    let n = k.run_interrupt_stream(&events);
    assert_eq!(n, 0);
    assert_eq!(k.handled_interrupts, 0);
    assert_eq!(k.timer_ticks, 0);
    assert_eq!(k.last_scancode, None);
}

struct SilentTest;

impl Testable for SilentTest {
    fn run(&self) {}
}

#[test]
fn testable_interface_is_implementable() {
    let t = SilentTest;
    t.run();
}
