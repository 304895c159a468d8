//! Interrupt vector table builder and interrupt controller bridge.
//!
//! The vector table binds every implemented fault or interrupt number to a
//! handler and, for the double fault only, to the alternate stack slot from
//! the segment/task-state builder. The bridge model covers the two cascaded
//! controllers: their vector-base offsets sit strictly above the 32 reserved
//! exception vectors and their ranges never overlap, and each serviced
//! interrupt must be acknowledged exactly once before the controller issues
//! the next one. Loading the finished table and programming the real
//! controller hardware are the unverified caller's steps.

use vstd::prelude::*;
use crate::gdt::{GdtInfo, DOUBLE_FAULT_IST_INDEX, IST_SLOTS};

verus! {

/// Number of slots in the interrupt vector table.
pub const IDT_SLOTS: usize = 256;

/// Number of architecture-reserved exception vectors.
pub const RESERVED_VECTORS: u8 = 32;

/// Vector of the recoverable diagnostic (breakpoint-class) exception.
pub const BREAKPOINT_VECTOR: u8 = 3;

/// Vector of the non-recoverable double fault.
pub const DOUBLE_FAULT_VECTOR: u8 = 8;

/// Vector base the primary controller is remapped to.
pub const PIC_1_OFFSET: u8 = 32;

/// Vector base the secondary controller is remapped to.
pub const PIC_2_OFFSET: u8 = PIC_1_OFFSET + 8;

/// Vector the timer line is delivered on after remapping.
pub const TIMER_VECTOR: u8 = PIC_1_OFFSET;

/// Vector the keyboard line is delivered on after remapping.
pub const KEYBOARD_VECTOR: u8 = PIC_1_OFFSET + 1;

/// The hardware-callable handler routines, distinguished at the type level
/// from ordinary functions: only values of this category can be registered
/// in a vector-table slot.
#[derive(Debug, Clone, Copy, PartialEq, Eq, Structural)]
pub enum HandlerKind {
    /// Recoverable diagnostic exception: report, then resume.
    Breakpoint,
    /// Terminal safety net: report on the alternate stack, then terminate.
    DoubleFault,
    /// Periodic hardware interrupt: count a tick, then acknowledge.
    Timer,
    /// Input hardware interrupt: drain the pending byte, then acknowledge.
    Keyboard,
}

/// One populated vector-table slot: a handler entry point and, only where a
/// stack switch is required, the interrupt-stack slot the hardware switches
/// to before the handler runs.
#[derive(Debug, Clone, Copy, PartialEq, Eq)]
pub struct IdtEntry {
    pub handler: HandlerKind,
    pub stack_index: Option<u16>,
}

/// The interrupt vector table: 256 logical slots, built once, loaded once,
/// never mutated after load.
#[derive(Debug, Clone, PartialEq, Eq)]
pub struct InterruptDescriptorTable {
    slots: Vec<Option<IdtEntry>>,
}

impl InterruptDescriptorTable {
    /// The table always carries all of its slots.
    pub closed spec fn wf(self) -> bool {
        self.slots@.len() == IDT_SLOTS
    }

    /// The binding a vector number dispatches through.
    pub closed spec fn entry_spec(self, vector: int) -> Option<IdtEntry> {
        self.slots@[vector]
    }

    /// A fresh table with every slot unpopulated.
    pub fn new() -> (r: InterruptDescriptorTable)
        ensures
            r.wf(),
            forall|v: int| 0 <= v < IDT_SLOTS ==> r.entry_spec(v) is None,
    {
        let mut slots: Vec<Option<IdtEntry>> = Vec::new();
        for i in 0..IDT_SLOTS
            invariant
                slots@.len() == i,
                forall|j: int| 0 <= j < i ==> slots@[j] is None,
        {
            slots.push(None);
        }
        InterruptDescriptorTable { slots }
    }

    /// Registers a handler for one vector, with no stack switch.
    pub fn set_handler(&mut self, vector: u8, handler: HandlerKind)
        requires
            old(self).wf(),
        ensures
            final(self).wf(),
            final(self).entry_spec(vector as int) == Some(
                IdtEntry { handler, stack_index: None },
            ),
            forall|v: int|
                0 <= v < IDT_SLOTS && v != vector ==> final(self).entry_spec(v) == old(
                    self,
                ).entry_spec(v),
    {
        let slot = &mut self.slots[vector as usize];
        *slot = Some(IdtEntry { handler, stack_index: None });
    }

    /// Registers a handler for one vector together with the alternate-stack
    /// slot the hardware must switch to before the handler runs.
    ///
    /// The registration path is checked: it only accepts a slot that the
    /// given task-state configuration actually backs with a reserved stack,
    /// so a vector cannot be bound to an invalid stack switch.
    pub fn set_handler_with_stack(
        &mut self,
        vector: u8,
        handler: HandlerKind,
        stack_index: u16,
        gdt: &GdtInfo,
    )
        requires
            old(self).wf(),
            gdt.wf(),
            stack_index < IST_SLOTS,
            gdt.tss.ist()[stack_index as int] != 0,
        ensures
            final(self).wf(),
            final(self).entry_spec(vector as int) == Some(
                IdtEntry { handler, stack_index: Some(stack_index) },
            ),
            forall|v: int|
                0 <= v < IDT_SLOTS && v != vector ==> final(self).entry_spec(v) == old(
                    self,
                ).entry_spec(v),
    {
        let slot = &mut self.slots[vector as usize];
        *slot = Some(IdtEntry { handler, stack_index: Some(stack_index) });
    }

    /// Re-derives the binding of one vector: the table is read-only after
    /// initialization, so this always reproduces what was registered.
    pub fn handler_binding(&self, vector: u8) -> (r: Option<IdtEntry>)
        requires
            self.wf(),
        ensures
            r == self.entry_spec(vector as int),
    {
        self.slots[vector as usize]
    }
}

/// The bindings the initialization sequence registers: the diagnostic
/// exception, the double fault on the fault-isolation stack, and the two
/// remapped hardware lines. Every other vector is deliberately left
/// unpopulated and will fault upward to the hardware default if triggered.
pub open spec fn canonical_entry(vector: int) -> Option<IdtEntry> {
    if vector == BREAKPOINT_VECTOR {
        Some(IdtEntry { handler: HandlerKind::Breakpoint, stack_index: None })
    } else if vector == DOUBLE_FAULT_VECTOR {
        Some(
            IdtEntry {
                handler: HandlerKind::DoubleFault,
                stack_index: Some(DOUBLE_FAULT_IST_INDEX),
            },
        )
    } else if vector == TIMER_VECTOR {
        Some(IdtEntry { handler: HandlerKind::Timer, stack_index: None })
    } else if vector == KEYBOARD_VECTOR {
        Some(IdtEntry { handler: HandlerKind::Keyboard, stack_index: None })
    } else {
        None
    }
}

/// Builds the interrupt vector table.
///
/// Callable only after the segment/task-state builder has produced its
/// configuration: the double-fault slot references that configuration's
/// fault-isolation stack, which the checked registration path demands.
pub fn init_idt(gdt: &GdtInfo) -> (idt: InterruptDescriptorTable)
    requires
        gdt.wf(),
    ensures
        idt.wf(),
        forall|v: int| 0 <= v < IDT_SLOTS ==> idt.entry_spec(v) == canonical_entry(v),
{
    let mut idt = InterruptDescriptorTable::new();
    idt.set_handler(BREAKPOINT_VECTOR, HandlerKind::Breakpoint);
    idt.set_handler_with_stack(
        DOUBLE_FAULT_VECTOR,
        HandlerKind::DoubleFault,
        DOUBLE_FAULT_IST_INDEX,
        gdt,
    );
    idt.set_handler(TIMER_VECTOR, HandlerKind::Timer);
    idt.set_handler(KEYBOARD_VECTOR, HandlerKind::Keyboard);
    idt
}

/// One of the two cascaded interrupt controllers.
#[derive(Debug, Clone, Copy, PartialEq, Eq, Structural)]
pub enum Controller {
    Primary,
    Secondary,
}

/// The two cascaded 8-line interrupt controllers, each with a programmable
/// vector-base offset, an in-service flag, and a line mask.
///
/// A controller that has issued an interrupt withholds further ones on that
/// controller until it is acknowledged; acknowledging before handler work is
/// done risks re-entrant dispatch, and never acknowledging starves the
/// controller. The model records every acknowledgment issued.
#[derive(Debug, Clone, Copy, PartialEq, Eq, Structural)]
pub struct ChainedPics {
    primary_offset: u8,
    secondary_offset: u8,
    primary_in_service: bool,
    secondary_in_service: bool,
    primary_mask: u8,
    secondary_mask: u8,
    acknowledgments: u64,
}

impl ChainedPics {
    /// The primary controller's vector base.
    pub closed spec fn primary_offset(self) -> u8 {
        self.primary_offset
    }

    /// The secondary controller's vector base.
    pub closed spec fn secondary_offset(self) -> u8 {
        self.secondary_offset
    }

    /// Whether a controller has an unacknowledged interrupt in service.
    pub closed spec fn in_service(self, c: Controller) -> bool {
        match c {
            Controller::Primary => self.primary_in_service,
            Controller::Secondary => self.secondary_in_service,
        }
    }

    /// Total acknowledgments issued since initialization.
    pub closed spec fn acknowledgments(self) -> u64 {
        self.acknowledgments
    }

    /// A controller's line mask; a set bit suppresses that line.
    pub closed spec fn mask(self, c: Controller) -> u8 {
        match c {
            Controller::Primary => self.primary_mask,
            Controller::Secondary => self.secondary_mask,
        }
    }

    /// Offsets place both 8-vector ranges strictly above the reserved
    /// exception vectors, without overlap between them and without wrapping.
    pub open spec fn offsets_ok(self) -> bool {
        &&& self.primary_offset() >= RESERVED_VECTORS
        &&& self.secondary_offset() >= RESERVED_VECTORS
        &&& self.primary_offset() <= 248
        &&& self.secondary_offset() <= 248
        &&& (self.secondary_offset() >= self.primary_offset() + 8 || self.primary_offset()
            >= self.secondary_offset() + 8)
    }

    /// Reprograms both controllers to fresh vector bases, leaving every line
    /// unmasked and no interrupt in service.
    pub fn new(offset1: u8, offset2: u8) -> (r: ChainedPics)
        requires
            offset1 >= RESERVED_VECTORS,
            offset2 >= RESERVED_VECTORS,
            offset1 <= 248,
            offset2 <= 248,
            offset2 >= offset1 + 8 || offset1 >= offset2 + 8,
        ensures
            r.offsets_ok(),
            r.primary_offset() == offset1,
            r.secondary_offset() == offset2,
            !r.in_service(Controller::Primary),
            !r.in_service(Controller::Secondary),
            r.mask(Controller::Primary) == 0,
            r.mask(Controller::Secondary) == 0,
            r.acknowledgments() == 0,
    {
        ChainedPics {
            primary_offset: offset1,
            secondary_offset: offset2,
            primary_in_service: false,
            secondary_in_service: false,
            primary_mask: 0,
            secondary_mask: 0,
            acknowledgments: 0,
        }
    }

    /// The controller, if any, whose remapped range covers a vector.
    pub open spec fn controller_of(self, vector: u8) -> Option<Controller> {
        if self.primary_offset() <= vector < self.primary_offset() + 8 {
            Some(Controller::Primary)
        } else if self.secondary_offset() <= vector < self.secondary_offset() + 8 {
            Some(Controller::Secondary)
        } else {
            None
        }
    }

    /// Whether either controller serves the given vector.
    pub fn handles_interrupt(&self, vector: u8) -> (r: bool)
        ensures
            r == (self.controller_of(vector) is Some),
    {
        let p = self.primary_offset;
        let s = self.secondary_offset;
        (p <= vector && (vector as u16) < (p as u16) + 8) || (s <= vector && (vector as u16) < (
        s as u16) + 8)
    }

    /// Total acknowledgments issued since initialization.
    pub fn acknowledgment_count(&self) -> (r: u64)
        ensures
            r == self.acknowledgments(),
    {
        self.acknowledgments
    }

    /// Whether a controller has an unacknowledged interrupt in service.
    pub fn is_in_service(&self, c: Controller) -> (r: bool)
        ensures
            r == self.in_service(c),
    {
        match c {
            Controller::Primary => self.primary_in_service,
            Controller::Secondary => self.secondary_in_service,
        }
    }

    /// Marks a controller as having issued an interrupt that now awaits
    /// acknowledgment; until then it withholds further interrupts.
    pub fn begin_service(&mut self, c: Controller)
        requires
            !old(self).in_service(c),
        ensures
            final(self).in_service(c),
            final(self).eq_except_service(*old(self)),
            c != Controller::Primary ==> final(self).in_service(Controller::Primary) == old(
                self,
            ).in_service(Controller::Primary),
            c != Controller::Secondary ==> final(self).in_service(Controller::Secondary) == old(
                self,
            ).in_service(Controller::Secondary),
    {
        match c {
            Controller::Primary => {
                self.primary_in_service = true;
            },
            Controller::Secondary => {
                self.secondary_in_service = true;
            },
        }
    }

    /// Acknowledges the serviced interrupt delivered on a vector, exactly
    /// once per delivery, after handler work is complete.
    ///
    /// An interrupt arriving through the secondary controller is signalled
    /// through the primary as well, so both are acknowledged in that case.
    pub fn notify_end_of_interrupt(&mut self, vector: u8)
        requires
            old(self).offsets_ok(),
            old(self).controller_of(vector) is Some,
            old(self).acknowledgments() < u64::MAX,
        ensures
            final(self).acknowledgments() == old(self).acknowledgments() + 1,
            final(self).primary_offset() == old(self).primary_offset(),
            final(self).secondary_offset() == old(self).secondary_offset(),
            final(self).mask(Controller::Primary) == old(self).mask(Controller::Primary),
            final(self).mask(Controller::Secondary) == old(self).mask(Controller::Secondary),
            !final(self).in_service(Controller::Primary),
            old(self).controller_of(vector) == Some(Controller::Primary) ==> final(self)
                .in_service(Controller::Secondary) == old(self).in_service(Controller::Secondary),
            old(self).controller_of(vector) == Some(Controller::Secondary) ==> !final(self)
                .in_service(Controller::Secondary),
    {
        let s = self.secondary_offset;
        if s <= vector && (vector as u16) < (s as u16) + 8 {
            self.secondary_in_service = false;
        }
        self.primary_in_service = false;
        self.acknowledgments = self.acknowledgments + 1;
    }

    /// Everything but the in-service flags and the acknowledgment count
    /// agrees with `other`'s.
    pub open spec fn eq_except_service(self, other: ChainedPics) -> bool {
        self.eq_programming(other) && self.acknowledgments() == other.acknowledgments()
    }

    /// The programmed state — vector bases and line masks — agrees with
    /// `other`'s; only initialization ever changes it.
    pub open spec fn eq_programming(self, other: ChainedPics) -> bool {
        &&& self.primary_offset() == other.primary_offset()
        &&& self.secondary_offset() == other.secondary_offset()
        &&& self.mask(Controller::Primary) == other.mask(Controller::Primary)
        &&& self.mask(Controller::Secondary) == other.mask(Controller::Secondary)
    }
}

/// Reprograms the two cascaded controllers so their output vectors sit
/// directly above the reserved exception range, with the secondary's range
/// following the primary's. Runs after the vector table is loaded and before
/// global interrupts are unmasked.
pub fn init_pics() -> (r: ChainedPics)
    ensures
        r.offsets_ok(),
        r.primary_offset() == PIC_1_OFFSET,
        r.secondary_offset() == PIC_2_OFFSET,
        !r.in_service(Controller::Primary),
        !r.in_service(Controller::Secondary),
        r.mask(Controller::Primary) == 0,
        r.mask(Controller::Secondary) == 0,
        r.acknowledgments() == 0,
{
    ChainedPics::new(PIC_1_OFFSET, PIC_2_OFFSET)
}

/// The hardware-populated structure every handler receives on entry,
/// describing the interrupted context. Owned by the hardware for the
/// duration of the call; handlers that resume must leave it unchanged, which
/// the handler signatures enforce by taking it by shared reference.
#[derive(Debug, Clone, Copy, PartialEq, Eq, Structural)]
pub struct InterruptStackFrame {
    pub instruction_pointer: u64,
    pub code_segment: u64,
    pub cpu_flags: u64,
    pub stack_pointer: u64,
    pub stack_segment: u64,
}

/// The stack a dispatched handler executed on: the interrupted context's own
/// stack, or the alternate fault-isolation stack (with its recorded top) the
/// hardware switched to through the task-state structure.
#[derive(Debug, Clone, Copy, PartialEq, Eq, Structural)]
pub enum HandlerStack {
    Current,
    Alternate(u64),
}

/// How a boot attempt ends: a status signalled through the emulator's
/// debug-exit channel in test builds, an indefinite halt otherwise, or the
/// hardware's uncontrolled reset when an unpopulated vector fires.
#[derive(Debug, Clone, Copy, PartialEq, Eq, Structural)]
pub enum Termination {
    Exit(crate::QemuExitCode),
    Halted,
    Reset,
}

/// A hardware interrupt arriving from a remapped controller line, carrying
/// for the input line the byte pending in the device.
#[derive(Debug, Clone, Copy, PartialEq, Eq, Structural)]
pub enum InterruptEvent {
    Timer,
    Keyboard(u8),
}

impl InterruptEvent {
    /// The vector this event is delivered on.
    pub open spec fn vector_spec(self) -> u8 {
        match self {
            InterruptEvent::Timer => TIMER_VECTOR,
            InterruptEvent::Keyboard(_) => KEYBOARD_VECTOR,
        }
    }

    /// The vector this event is delivered on.
    pub fn vector(self) -> (r: u8)
        ensures
            r == self.vector_spec(),
    {
        match self {
            InterruptEvent::Timer => TIMER_VECTOR,
            InterruptEvent::Keyboard(_) => KEYBOARD_VECTOR,
        }
    }
}

} // verus!
