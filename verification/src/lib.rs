//! Trap and interrupt dispatch core of a bare-metal, single-address-space
//! x86 kernel: segment/task-state construction, the interrupt vector table,
//! the bridge to the cascaded interrupt controllers, the fault and interrupt
//! handlers, and the interrupt-safe mutual-exclusion discipline that every
//! subsystem sharing state with handler context must follow.
//!
//! Hardware itself admits no retries — a missing descriptor or a forgotten
//! acknowledgment ends in a silent reset or an interrupt storm — so this
//! crate makes misconfiguration unrepresentable by construction: tables are
//! built by checked builders, loaded once, and immutable thereafter. The
//! privileged instructions that hand the finished tables to the CPU, and all
//! device input and output, live outside the verified library.

use vstd::prelude::*;

pub mod gdt;
pub mod interrupts;
pub mod locking;
pub mod vga_buffer;

use crate::gdt::{GdtInfo, FAULT_STACK_SIZE};
use crate::interrupts::{
    canonical_entry, ChainedPics, Controller, HandlerKind, HandlerStack, IdtEntry,
    InterruptDescriptorTable, InterruptEvent, InterruptStackFrame, Termination,
    BREAKPOINT_VECTOR, DOUBLE_FAULT_VECTOR, IDT_SLOTS, PIC_1_OFFSET, PIC_2_OFFSET,
    RESERVED_VECTORS,
};

verus! {

/// Exit status reported to the emulator's debug-exit device in test builds:
/// the only externally observable exit status the kernel has.
#[derive(Debug, Clone, Copy, PartialEq, Eq, Structural)]
pub enum QemuExitCode {
    Success,
    Failure,
}

impl QemuExitCode {
    /// The port value encoding this exit status.
    pub open spec fn code_spec(self) -> u32 {
        match self {
            QemuExitCode::Success => 0x10,
            QemuExitCode::Failure => 0x11,
        }
    }

    /// The 32-bit value written to the debug-exit port for this status.
    pub fn code(&self) -> (r: u32)
        ensures
            r == self.code_spec(),
    {
        match self {
            QemuExitCode::Success => 0x10,
            QemuExitCode::Failure => 0x11,
        }
    }
}

/// What a runnable test exposes to the test runner; the unverified harness
/// implements it for its test functions.
pub trait Testable {
    fn run(&self);
}

/// Decides the exit status of an ordinary test run. The runner reaches the
/// success exit only after every test has run to completion; a failing test
/// panics into the failure exit path instead, so the reported status is
/// success exactly when all tests completed.
pub fn test_runner(completed: &Vec<bool>) -> (r: QemuExitCode)
    ensures
        (r == QemuExitCode::Success) <==> (forall|i: int|
            0 <= i < completed@.len() ==> completed@[i]),
        r == QemuExitCode::Success || r == QemuExitCode::Failure,
{
    for i in 0..completed.len()
        invariant
            forall|j: int| 0 <= j < i ==> completed@[j],
    {
        if !completed[i] {
            return QemuExitCode::Failure;
        }
    }
    QemuExitCode::Success
}

/// Decides the exit status of a run whose tests are expected to panic. The
/// first test decides: if it returns normally the runner reports failure,
/// and if it panics the panic path reports success; an empty run falls
/// through to the success exit.
pub fn test_runner_should_panic(completed: &Vec<bool>) -> (r: QemuExitCode)
    ensures
        completed@.len() == 0 ==> r == QemuExitCode::Success,
        completed@.len() > 0 ==> r == (if completed@[0] {
            QemuExitCode::Failure
        } else {
            QemuExitCode::Success
        }),
{
    if completed.len() > 0 {
        if completed[0] {
            QemuExitCode::Failure
        } else {
            QemuExitCode::Success
        }
    } else {
        QemuExitCode::Success
    }
}

/// The dispatch core's whole software-visible state: the three configuration
/// objects the initialization sequence constructs, the global
/// interrupt-enable flag, and what the handlers have observed and decided.
///
/// Event reports travel to the output collaborators, which are consumed
/// interfaces; the model records them as counts.
#[derive(Debug, PartialEq, Eq)]
pub struct Kernel {
    /// Product of the segment/task-state builder, once it has run.
    pub gdt: Option<GdtInfo>,
    /// The loaded vector table, once the builder has run.
    pub idt: Option<InterruptDescriptorTable>,
    /// The remapped controller pair, once the bridge has run.
    pub pics: Option<ChainedPics>,
    /// Whether maskable interrupt delivery is globally enabled.
    pub interrupts_enabled: bool,
    /// Whether a terminal fault signals the emulator instead of halting.
    pub test_mode: bool,
    /// Ticks counted by the timer handler.
    pub timer_ticks: u64,
    /// The byte the input handler drained most recently.
    pub last_scancode: Option<u8>,
    /// Diagnostic exceptions reported and resumed from.
    pub breakpoint_reports: u64,
    /// Terminal faults reported.
    pub fault_reports: u64,
    /// Hardware interrupts dispatched to a handler.
    pub handled_interrupts: u64,
    /// How this boot attempt ended, if it has.
    pub terminated: Option<Termination>,
}

impl Kernel {
    /// The segment/task-state configuration (meaningful once built).
    pub open spec fn gdt_info(self) -> GdtInfo {
        self.gdt->Some_0
    }

    /// The vector table (meaningful once built).
    pub open spec fn idt_table(self) -> InterruptDescriptorTable {
        self.idt->Some_0
    }

    /// The controller pair (meaningful once initialized).
    pub open spec fn pic_state(self) -> ChainedPics {
        self.pics->Some_0
    }

    /// Structural soundness at every stage: each configuration object, once
    /// present, is well formed; the vector table exists only after the
    /// segment/task-state builder (its double-fault slot references that
    /// builder's stack), the controller bridge only after the table, and
    /// global delivery is enabled only after the bridge.
    pub open spec fn wf(self) -> bool {
        &&& match self.gdt {
            Some(g) => g.wf(),
            None => true,
        }
        &&& match self.idt {
            Some(t) => self.gdt is Some && t.wf() && (forall|v: int|
                0 <= v < IDT_SLOTS ==> t.entry_spec(v) == canonical_entry(v)),
            None => true,
        }
        &&& match self.pics {
            Some(p) => {
                &&& self.idt is Some
                &&& p.offsets_ok()
                &&& p.primary_offset() == PIC_1_OFFSET
                &&& p.secondary_offset() == PIC_2_OFFSET
                &&& p.mask(Controller::Primary) == 0
                &&& p.mask(Controller::Secondary) == 0
            },
            None => true,
        }
        &&& self.interrupts_enabled ==> self.pics is Some
    }

    /// The full initialization sequence has completed.
    pub open spec fn initialized(self) -> bool {
        self.gdt is Some && self.idt is Some && self.pics is Some && self.interrupts_enabled
    }

    /// Dispatch may run: initialized, sound, and not yet terminated.
    pub open spec fn ready(self) -> bool {
        self.wf() && self.initialized() && self.terminated is None
    }

    /// Everything the initialization sequence fixed agrees with `other`'s:
    /// the descriptor tables, the vector table, the controller programming
    /// and the global flags. Handler activity never changes any of it.
    pub open spec fn config_eq(self, other: Kernel) -> bool {
        &&& self.gdt == other.gdt
        &&& self.idt == other.idt
        &&& (self.pics is Some) == (other.pics is Some)
        &&& self.pics is Some ==> self.pic_state().eq_programming(other.pic_state())
        &&& self.interrupts_enabled == other.interrupts_enabled
        &&& self.test_mode == other.test_mode
    }

    /// A kernel at the very start of a boot: nothing built, delivery
    /// disabled, nothing observed.
    pub fn new(test_mode: bool) -> (k: Kernel)
        ensures
            k.wf(),
            k.gdt is None,
            k.idt is None,
            k.pics is None,
            !k.interrupts_enabled,
            k.test_mode == test_mode,
            k.timer_ticks == 0,
            k.last_scancode is None,
            k.breakpoint_reports == 0,
            k.fault_reports == 0,
            k.handled_interrupts == 0,
            k.terminated is None,
    {
        Kernel {
            gdt: None,
            idt: None,
            pics: None,
            interrupts_enabled: false,
            test_mode,
            timer_ticks: 0,
            last_scancode: None,
            breakpoint_reports: 0,
            fault_reports: 0,
            handled_interrupts: 0,
            terminated: None,
        }
    }

    /// Whether the full initialization sequence has completed.
    pub fn is_initialized(&self) -> (r: bool)
        ensures
            r == self.initialized(),
    {
        self.gdt.is_some() && self.idt.is_some() && self.pics.is_some()
            && self.interrupts_enabled
    }

    /// Re-derives the binding of one vector from the loaded table. The table
    /// is immutable after initialization, so the result always equals what
    /// the initialization sequence registered.
    pub fn handler_binding(&self, vector: u8) -> (r: Option<IdtEntry>)
        requires
            self.wf(),
            self.initialized(),
        ensures
            r == canonical_entry(vector as int),
    {
        match &self.idt {
            Some(t) => t.handler_binding(vector),
            None => {
                proof {
                    assert(false);
                }
                None
            },
        }
    }
}

/// Runs the full initialization sequence, in its one admissible order:
/// segment/task-state build, vector-table build referencing it, controller
/// remap, and only then the global enabling of interrupt delivery.
///
/// `fault_stack_base` is the base address of the permanently reserved
/// fault-isolation stack region the caller owns. A second call on an already
/// initialized kernel is a no-op: side effects are global and permanent for
/// the process lifetime and are never re-triggered.
pub fn init(kernel: &mut Kernel, fault_stack_base: u64)
    requires
        old(kernel).wf(),
        0 < fault_stack_base,
        fault_stack_base + FAULT_STACK_SIZE <= u64::MAX,
    ensures
        final(kernel).wf(),
        final(kernel).initialized(),
        old(kernel).initialized() ==> *final(kernel) == *old(kernel),
        !old(kernel).initialized() ==> {
            &&& final(kernel).gdt_info().fault_stack_top() == fault_stack_base
                + FAULT_STACK_SIZE
            &&& !final(kernel).pic_state().in_service(Controller::Primary)
            &&& !final(kernel).pic_state().in_service(Controller::Secondary)
            &&& final(kernel).pic_state().acknowledgments() == 0
        },
        final(kernel).test_mode == old(kernel).test_mode,
        final(kernel).timer_ticks == old(kernel).timer_ticks,
        final(kernel).last_scancode == old(kernel).last_scancode,
        final(kernel).breakpoint_reports == old(kernel).breakpoint_reports,
        final(kernel).fault_reports == old(kernel).fault_reports,
        final(kernel).handled_interrupts == old(kernel).handled_interrupts,
        final(kernel).terminated == old(kernel).terminated,
{
    if kernel.is_initialized() {
        return ;
    }
    let g = gdt::init(fault_stack_base);
    let t = interrupts::init_idt(&g);
    let p = interrupts::init_pics();
    kernel.gdt = Some(g);
    kernel.idt = Some(t);
    kernel.pics = Some(p);
    kernel.interrupts_enabled = true;
}

impl Kernel {
    /// The diagnostic exception's effect: the event is reported and nothing
    /// else changes; execution resumes at the following instruction.
    pub open spec fn spec_breakpoint(self) -> Kernel
        recommends
            self.breakpoint_reports < u64::MAX,
    {
        Kernel { breakpoint_reports: (self.breakpoint_reports + 1) as u64, ..self }
    }

    /// Dispatches a CPU exception through the loaded vector table, returning
    /// the stack the handler executed on.
    ///
    /// The diagnostic (breakpoint-class) exception reports and resumes: the
    /// machine state is unchanged but for the report count, and the
    /// hardware-owned frame, taken by shared reference, is restored as it
    /// was. The double fault runs on the alternate fault-isolation stack the
    /// hardware switched to through the task-state structure — its recorded
    /// top is nonzero whatever the interrupted stack pointer was — reports
    /// once, and terminates the boot attempt through the test-mode exit
    /// signal or the indefinite halt; it never resumes the faulting code.
    /// An unpopulated vector falls through to the hardware's uncontrolled
    /// reset.
    pub fn dispatch_exception(&mut self, vector: u8, frame: &InterruptStackFrame) -> (r:
        HandlerStack)
        requires
            old(self).ready(),
            vector < RESERVED_VECTORS,
            old(self).breakpoint_reports < u64::MAX,
            old(self).fault_reports < u64::MAX,
        ensures
            final(self).wf(),
            final(self).config_eq(*old(self)),
            vector == BREAKPOINT_VECTOR ==> {
                &&& *final(self) == old(self).spec_breakpoint()
                &&& r == HandlerStack::Current
                &&& final(self).terminated is None
            },
            vector == DOUBLE_FAULT_VECTOR ==> {
                &&& r == HandlerStack::Alternate(old(self).gdt_info().fault_stack_top())
                &&& old(self).gdt_info().fault_stack_top() != 0
                &&& *final(self) == (Kernel {
                    fault_reports: (old(self).fault_reports + 1) as u64,
                    terminated: Some(
                        if old(self).test_mode {
                            Termination::Exit(QemuExitCode::Failure)
                        } else {
                            Termination::Halted
                        },
                    ),
                    ..*old(self)
                })
            },
            vector != BREAKPOINT_VECTOR && vector != DOUBLE_FAULT_VECTOR ==> {
                &&& r == HandlerStack::Current
                &&& *final(self) == (Kernel {
                    terminated: Some(Termination::Reset),
                    ..*old(self)
                })
            },
    {
        let binding = self.handler_binding(vector);
        match binding {
            None => {
                // Out-of-scope vector: the hardware's default response is an
                // uncontrolled reset (triple fault).
                self.terminated = Some(Termination::Reset);
                HandlerStack::Current
            },
            Some(entry) => {
                let stack = match entry.stack_index {
                    None => HandlerStack::Current,
                    Some(i) => {
                        let top = match &self.gdt {
                            Some(g) => g.tss.stack_top(i as usize),
                            None => {
                                proof {
                                    assert(false);
                                }
                                0
                            },
                        };
                        HandlerStack::Alternate(top)
                    },
                };
                match entry.handler {
                    HandlerKind::Breakpoint => {
                        // Report through the output collaborators, then
                        // resume the interrupted context unchanged.
                        self.breakpoint_reports = self.breakpoint_reports + 1;
                        stack
                    },
                    HandlerKind::DoubleFault => {
                        // Terminal safety net: report through the lowest-risk
                        // channel, then end the boot attempt. Never returns
                        // to the faulting code and never touches the
                        // possibly corrupted original stack.
                        self.fault_reports = self.fault_reports + 1;
                        self.terminated = Some(
                            if self.test_mode {
                                Termination::Exit(QemuExitCode::Failure)
                            } else {
                                Termination::Halted
                            },
                        );
                        stack
                    },
                    HandlerKind::Timer | HandlerKind::Keyboard => {
                        proof {
                            assert(false);
                        }
                        stack
                    },
                }
            },
        }
    }

    /// Delivers one hardware interrupt from its controller line.
    ///
    /// The controller withholds the line while a previous interrupt is still
    /// unacknowledged, so delivery happens exactly when the primary
    /// controller is idle. A delivered interrupt is dispatched to its
    /// handler exactly once; the handler does its minimal work — counting a
    /// tick, draining the pending input byte — and then issues exactly one
    /// acknowledgment to the originating controller before returning, which
    /// leaves the controller able to issue the next interrupt.
    pub fn deliver_interrupt(&mut self, event: InterruptEvent) -> (delivered: bool)
        requires
            old(self).ready(),
            old(self).timer_ticks < u64::MAX,
            old(self).handled_interrupts < u64::MAX,
            old(self).pic_state().acknowledgments() < u64::MAX,
        ensures
            final(self).wf(),
            final(self).config_eq(*old(self)),
            delivered == !old(self).pic_state().in_service(Controller::Primary),
            !delivered ==> *final(self) == *old(self),
            delivered ==> {
                &&& final(self).pic_state().acknowledgments() == old(
                    self,
                ).pic_state().acknowledgments() + 1
                &&& !final(self).pic_state().in_service(Controller::Primary)
                &&& final(self).handled_interrupts == old(self).handled_interrupts + 1
                &&& final(self).timer_ticks == old(self).timer_ticks + (
                if event is Timer {
                    1int
                } else {
                    0int
                })
                &&& final(self).last_scancode == (match event {
                    InterruptEvent::Timer => old(self).last_scancode,
                    InterruptEvent::Keyboard(b) => Some(b),
                })
                &&& final(self).breakpoint_reports == old(self).breakpoint_reports
                &&& final(self).fault_reports == old(self).fault_reports
                &&& final(self).terminated is None
            },
    {
        let vector = event.vector();
        let mut delivered = false;
        match &mut self.pics {
            Some(p) => {
                if !p.is_in_service(Controller::Primary) {
                    p.begin_service(Controller::Primary);
                    match event {
                        InterruptEvent::Timer => {
                            self.timer_ticks = self.timer_ticks + 1;
                        },
                        InterruptEvent::Keyboard(b) => {
                            self.last_scancode = Some(b);
                        },
                    }
                    self.handled_interrupts = self.handled_interrupts + 1;
                    p.notify_end_of_interrupt(vector);
                    delivered = true;
                }
            },
            None => {
                proof {
                    assert(false);
                }
            },
        }
        delivered
    }

    /// Runs a synthetic stream of hardware interrupts against an idle
    /// controller: every one of the `events.len()` interrupts is delivered,
    /// each is dispatched to its handler exactly once, each is acknowledged
    /// exactly once, and afterwards the controller is idle again, so a
    /// further interrupt remains deliverable — no duplicate dispatch and no
    /// permanent starvation.
    pub fn run_interrupt_stream(&mut self, events: &Vec<InterruptEvent>) -> (n: usize)
        requires
            old(self).ready(),
            !old(self).pic_state().in_service(Controller::Primary),
            old(self).timer_ticks + events@.len() <= u64::MAX,
            old(self).handled_interrupts + events@.len() <= u64::MAX,
            old(self).pic_state().acknowledgments() + events@.len() <= u64::MAX,
        ensures
            n == events@.len(),
            final(self).ready(),
            final(self).config_eq(*old(self)),
            final(self).handled_interrupts == old(self).handled_interrupts + events@.len(),
            final(self).pic_state().acknowledgments() == old(self).pic_state().acknowledgments()
                + events@.len(),
            !final(self).pic_state().in_service(Controller::Primary),
            final(self).timer_ticks == old(self).timer_ticks + timer_count(events@),
            final(self).last_scancode == last_key(events@, old(self).last_scancode),
            final(self).breakpoint_reports == old(self).breakpoint_reports,
            final(self).fault_reports == old(self).fault_reports,
    {
        let len = events.len();
        for i in 0..len
            invariant
                len == events@.len(),
                self.ready(),
                self.config_eq(*old(self)),
                !self.pic_state().in_service(Controller::Primary),
                self.handled_interrupts == old(self).handled_interrupts + i,
                self.pic_state().acknowledgments() == old(self).pic_state().acknowledgments()
                    + i,
                self.timer_ticks == old(self).timer_ticks + timer_count(events@.take(i as int)),
                self.last_scancode == last_key(events@.take(i as int), old(self).last_scancode),
                self.breakpoint_reports == old(self).breakpoint_reports,
                self.fault_reports == old(self).fault_reports,
                old(self).timer_ticks + events@.len() <= u64::MAX,
                old(self).handled_interrupts + events@.len() <= u64::MAX,
                old(self).pic_state().acknowledgments() + events@.len() <= u64::MAX,
        {
            proof {
                lemma_timer_count_bound(events@.take(i as int));
                lemma_timer_count_snoc(events@.take(i + 1));
                assert(events@.take(i + 1).drop_last() =~= events@.take(i as int));
            }
            let delivered = self.deliver_interrupt(events[i]);
            proof {
                assert(delivered);
            }
        }
        proof {
            assert(events@.take(len as int) =~= events@);
        }
        len
    }
}

/// The byte the input handler holds after a stream: the last byte a
/// keyboard event carried, or what it held before if none arrived.
pub open spec fn last_key(events: Seq<InterruptEvent>, prior: Option<u8>) -> Option<u8>
    decreases events.len(),
{
    if events.len() == 0 {
        prior
    } else {
        match events.last() {
            InterruptEvent::Keyboard(b) => Some(b),
            InterruptEvent::Timer => last_key(events.drop_last(), prior),
        }
    }
}

/// How many of a stream's events are timer ticks.
pub open spec fn timer_count(events: Seq<InterruptEvent>) -> int
    decreases events.len(),
{
    if events.len() == 0 {
        0
    } else {
        timer_count(events.drop_last()) + (if events.last() is Timer {
            1int
        } else {
            0int
        })
    }
}

/// A stream never holds more timer ticks than events.
pub proof fn lemma_timer_count_bound(events: Seq<InterruptEvent>)
    ensures
        0 <= timer_count(events) <= events.len(),
    decreases events.len(),
{
    if events.len() > 0 {
        lemma_timer_count_bound(events.drop_last());
    }
}

/// Extending a stream by one event extends its tick count accordingly.
pub proof fn lemma_timer_count_snoc(events: Seq<InterruptEvent>)
    requires
        events.len() > 0,
    ensures
        timer_count(events) == timer_count(events.drop_last()) + (if events.last() is Timer {
            1int
        } else {
            0int
        }),
{
}

/// The diagnostic exception dispatched `n` times in a row.
pub open spec fn spec_breakpoint_n(k: Kernel, n: nat) -> Kernel
    decreases n,
{
    if n == 0 {
        k
    } else {
        spec_breakpoint_n(k, (n - 1) as nat).spec_breakpoint()
    }
}

/// Diagnostic-fault recoverability: however many times the diagnostic trap
/// runs — once or a thousand times — the machine afterwards differs from
/// before in the report count alone; configuration, counters and termination
/// state are identical each time, so execution resumes unperturbed.
pub proof fn lemma_diagnostic_recoverable(k: Kernel, n: nat)
    requires
        k.breakpoint_reports + n <= u64::MAX,
    ensures
        spec_breakpoint_n(k, n) == (Kernel {
            breakpoint_reports: (k.breakpoint_reports + n) as u64,
            ..k
        }),
    decreases n,
{
    if n > 0 {
        lemma_diagnostic_recoverable(k, (n - 1) as nat);
    }
}

/// Double-fault isolation: in an initialized kernel the double-fault vector
/// is bound to a handler with a stack switch to the fault-isolation slot,
/// and the task-state structure records a nonzero stack top for that slot —
/// the hardware therefore switches to a valid dedicated stack before the
/// handler runs, whatever the interrupted stack pointer was, so the handler
/// is guaranteed to execute even under stack exhaustion.
pub proof fn lemma_double_fault_isolation(k: Kernel)
    requires
        k.wf(),
        k.initialized(),
    ensures
        k.idt_table().entry_spec(DOUBLE_FAULT_VECTOR as int) == Some(
            IdtEntry {
                handler: HandlerKind::DoubleFault,
                stack_index: Some(gdt::DOUBLE_FAULT_IST_INDEX),
            },
        ),
        k.gdt_info().fault_stack_top() != 0,
{
    let t = k.idt_table();
    assert(t.entry_spec(DOUBLE_FAULT_VECTOR as int) == canonical_entry(
        DOUBLE_FAULT_VECTOR as int,
    ));
}

/// Vector table immutability: after initialization every binding that can be
/// re-derived from the loaded table equals what the initialization sequence
/// registered, for every vector; nothing the handlers do changes it.
pub proof fn lemma_vector_table_immutable(k: Kernel, vector: u8)
    requires
        k.wf(),
        k.initialized(),
    ensures
        k.idt_table().entry_spec(vector as int) == canonical_entry(vector as int),
{
}

} // verus!

