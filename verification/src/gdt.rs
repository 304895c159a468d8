//! Segment and task-state builder: the segment descriptor table with one
//! kernel code segment and one task-state descriptor, and the task-state
//! structure whose single used interrupt-stack slot supplies the alternate
//! stack reserved for the double fault.
//!
//! Everything here is built once during startup and immutable afterwards;
//! the privileged instructions that hand the finished table to the CPU
//! (loading the segment-table register, reloading the code segment, binding
//! the task register) live outside the verified library.

use vstd::prelude::*;

verus! {

/// The interrupt-stack-table slot reserved for the double-fault handler.
pub const DOUBLE_FAULT_IST_INDEX: u16 = 0;

/// Size in bytes of the statically reserved fault-isolation stack.
///
/// The region has no guard page below it: overflowing it during double-fault
/// handling corrupts adjacent memory without trapping. That is a documented
/// risk inherited from the design, not something this builder can prevent.
pub const FAULT_STACK_SIZE: u64 = 4096 * 5;

/// Number of interrupt-stack-table slots a task-state structure offers.
pub const IST_SLOTS: usize = 7;

/// Capacity of the descriptor table in 8-byte slots, the null slot included.
pub const GDT_SLOTS: u16 = 8;

/// A descriptor entry: either the kernel code segment or the task-state
/// segment descriptor (which occupies two 8-byte slots in 64-bit mode).
#[derive(Debug, Clone, Copy, PartialEq, Eq, Structural)]
pub enum Descriptor {
    KernelCode,
    TaskState,
}

impl Descriptor {
    /// How many 8-byte table slots this descriptor occupies.
    pub open spec fn slots_spec(self) -> int {
        match self {
            Descriptor::KernelCode => 1,
            Descriptor::TaskState => 2,
        }
    }

    /// How many 8-byte table slots this descriptor occupies.
    pub fn slots(self) -> (r: u16)
        ensures
            r == self.slots_spec(),
    {
        match self {
            Descriptor::KernelCode => 1,
            Descriptor::TaskState => 2,
        }
    }
}

/// Total number of slots a sequence of descriptors occupies.
pub open spec fn slots_of(entries: Seq<Descriptor>) -> int
    decreases entries.len(),
{
    if entries.len() == 0 {
        0
    } else {
        slots_of(entries.drop_last()) + entries.last().slots_spec()
    }
}

/// An index into the descriptor table plus requested privilege bits: the
/// opaque handle an entry's registration returns, consumed only by the load
/// operations and by vector-table entries that need a stack switch.
#[derive(Debug, Clone, Copy, PartialEq, Eq, Structural)]
pub struct SegmentSelector {
    pub index: u16,
    pub rpl: u8,
}

impl SegmentSelector {
    /// A selector is valid when its index addresses one of the 8192 possible
    /// slots and its privilege bits name one of the four rings.
    pub open spec fn wf(self) -> bool {
        self.index < 0x2000 && self.rpl < 4
    }

    /// The 16-bit value loaded into a segment register: the slot index in
    /// the high bits, the table-indicator bit clear, the privilege level in
    /// the low two bits.
    pub fn value(self) -> (r: u16)
        requires
            self.wf(),
        ensures
            r == self.index * 8 + self.rpl,
    {
        self.index * 8 + (self.rpl as u16)
    }
}

/// The task-state structure: an array of alternate-stack top addresses, one
/// per usable interrupt-stack slot. This system uses exactly one, the
/// fault-isolation slot; a zero entry means the slot is unused.
#[derive(Debug, Clone, PartialEq, Eq)]
pub struct TaskStateSegment {
    interrupt_stack_table: Vec<u64>,
}

impl TaskStateSegment {
    /// The structure always carries all of its slots.
    pub closed spec fn wf(self) -> bool {
        self.interrupt_stack_table@.len() == IST_SLOTS
    }

    /// The stack-top addresses, one per slot.
    pub closed spec fn ist(self) -> Seq<u64> {
        self.interrupt_stack_table@
    }

    /// A fresh task-state structure with every slot unused.
    pub fn new() -> (r: TaskStateSegment)
        ensures
            r.wf(),
            r.ist() == Seq::new(IST_SLOTS as nat, |i: int| 0u64),
    {
        let mut t: Vec<u64> = Vec::new();
        for i in 0..IST_SLOTS
            invariant
                t@.len() == i,
                forall|j: int| 0 <= j < i ==> t@[j] == 0u64,
        {
            t.push(0);
        }
        proof {
            assert(t@ =~= Seq::new(IST_SLOTS as nat, |i: int| 0u64));
        }
        TaskStateSegment { interrupt_stack_table: t }
    }

    /// Points one interrupt-stack slot at a stack top.
    pub fn set_stack(&mut self, index: usize, top: u64)
        requires
            old(self).wf(),
            index < IST_SLOTS,
        ensures
            final(self).wf(),
            final(self).ist() == old(self).ist().update(index as int, top),
    {
        let slot = &mut self.interrupt_stack_table[index];
        *slot = top;
    }

    /// The stack top recorded in one slot.
    pub fn stack_top(&self, index: usize) -> (r: u64)
        requires
            self.wf(),
            index < IST_SLOTS,
        ensures
            r == self.ist()[index as int],
    {
        self.interrupt_stack_table[index]
    }
}

/// The segment descriptor table: an ordered sequence of descriptor entries
/// behind a reserved null slot. Entries are only ever appended; the builder
/// hands back a selector for each.
#[derive(Debug, Clone, PartialEq, Eq)]
pub struct GlobalDescriptorTable {
    entries: Vec<Descriptor>,
    next_index: u16,
}

impl GlobalDescriptorTable {
    /// The descriptors added so far, in order.
    pub closed spec fn entries_seq(self) -> Seq<Descriptor> {
        self.entries@
    }

    /// The first free 8-byte slot; slot 0 is the reserved null descriptor.
    pub closed spec fn next(self) -> int {
        self.next_index as int
    }

    /// The next free slot always sits right after the slots the entries
    /// occupy, inside the table's capacity.
    pub closed spec fn wf(self) -> bool {
        self.next_index == 1 + slots_of(self.entries@) && self.next_index <= GDT_SLOTS
    }

    /// An empty table: only the null slot is taken.
    pub fn new() -> (r: GlobalDescriptorTable)
        ensures
            r.wf(),
            r.entries_seq() == Seq::<Descriptor>::empty(),
            r.next() == 1,
    {
        proof {
            assert(slots_of(Seq::<Descriptor>::empty()) == 0);
        }
        GlobalDescriptorTable { entries: Vec::new(), next_index: 1 }
    }

    /// Appends a descriptor and returns the selector addressing it, with
    /// kernel privilege. Entries are never removed or reordered.
    pub fn add_entry(&mut self, entry: Descriptor) -> (sel: SegmentSelector)
        requires
            old(self).wf(),
            old(self).next() + entry.slots_spec() <= GDT_SLOTS,
        ensures
            final(self).wf(),
            final(self).entries_seq() == old(self).entries_seq().push(entry),
            final(self).next() == old(self).next() + entry.slots_spec(),
            sel == (SegmentSelector { index: old(self).next() as u16, rpl: 0 }),
            sel.wf(),
    {
        let index = self.next_index;
        self.next_index = self.next_index + entry.slots();
        self.entries.push(entry);
        proof {
            assert(self.entries@.drop_last() =~= old(self).entries@);
        }
        SegmentSelector { index, rpl: 0 }
    }

    /// How many entries of one kind the table holds.
    pub open spec fn count(self, kind: Descriptor) -> int {
        self.entries_seq().filter(|d: Descriptor| d == kind).len() as int
    }
}

/// The finished product of the builder: the descriptor table, the task-state
/// structure it references, and the two selectors the load operations and the
/// vector table consume. Constructed only by [`init`], so a value of this
/// type always satisfies [`GdtInfo::wf`].
#[derive(Debug, Clone, PartialEq, Eq)]
pub struct GdtInfo {
    pub table: GlobalDescriptorTable,
    pub tss: TaskStateSegment,
    pub code_selector: SegmentSelector,
    pub tss_selector: SegmentSelector,
}

impl GdtInfo {
    /// The configuration the builder guarantees: exactly one code-segment
    /// descriptor and exactly one task-state descriptor, in that order;
    /// selectors addressing them; and a nonzero fault-isolation stack top in
    /// the double-fault slot of the task-state structure.
    pub open spec fn wf(self) -> bool {
        &&& self.table.wf()
        &&& self.table.entries_seq() =~= seq![Descriptor::KernelCode, Descriptor::TaskState]
        &&& self.code_selector == (SegmentSelector { index: 1, rpl: 0 })
        &&& self.tss_selector == (SegmentSelector { index: 2, rpl: 0 })
        &&& self.tss.wf()
        &&& self.tss.ist()[DOUBLE_FAULT_IST_INDEX as int] != 0
    }

    /// The top of the fault-isolation stack the double-fault handler runs on.
    pub open spec fn fault_stack_top(self) -> u64 {
        self.tss.ist()[DOUBLE_FAULT_IST_INDEX as int]
    }
}

/// Builds the segment descriptor table and the task-state structure.
///
/// `fault_stack_base` is the base address of the statically reserved,
/// never-freed fault-isolation stack region; the slot records the region's
/// top, since stacks grow downwards. The caller owns the region for the
/// process lifetime. Loading the finished table into the CPU is the
/// unverified caller's one remaining step, done exactly once per boot.
pub fn init(fault_stack_base: u64) -> (g: GdtInfo)
    requires
        0 < fault_stack_base,
        fault_stack_base + FAULT_STACK_SIZE <= u64::MAX,
    ensures
        g.wf(),
        g.fault_stack_top() == fault_stack_base + FAULT_STACK_SIZE,
        g.tss.ist() == Seq::new(IST_SLOTS as nat, |i: int| 0u64).update(
            DOUBLE_FAULT_IST_INDEX as int,
            (fault_stack_base + FAULT_STACK_SIZE) as u64,
        ),
        g.count_ok(),
{
    let mut tss = TaskStateSegment::new();
    let top = fault_stack_base + FAULT_STACK_SIZE;
    tss.set_stack(DOUBLE_FAULT_IST_INDEX as usize, top);

    let mut table = GlobalDescriptorTable::new();
    let code_selector = table.add_entry(Descriptor::KernelCode);
    let tss_selector = table.add_entry(Descriptor::TaskState);

    let g = GdtInfo { table, tss, code_selector, tss_selector };
    proof {
        g.lemma_counts();
    }
    g
}

impl GdtInfo {
    /// Exactly one code-segment descriptor and exactly one task-state
    /// descriptor exist.
    pub open spec fn count_ok(self) -> bool {
        self.table.count(Descriptor::KernelCode) == 1 && self.table.count(Descriptor::TaskState)
            == 1
    }

    /// The invariant on the entry sequence yields the exactly-one counts the
    /// data model demands.
    pub proof fn lemma_counts(self)
        requires
            self.wf(),
        ensures
            self.count_ok(),
    {
        let s = self.table.entries_seq();
        reveal_with_fuel(Seq::filter, 4);
        assert(s.drop_last() =~= seq![Descriptor::KernelCode]);
        assert(s.drop_last().drop_last() =~= Seq::<Descriptor>::empty());
    }
}

} // verus!
