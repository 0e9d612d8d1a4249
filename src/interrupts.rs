//! Exception and interrupt vectors, and the table that binds each vector
//! this kernel uses to its handler.

use vstd::prelude::*;
use crate::gdt::{DOUBLE_FAULT_IST_INDEX, DOUBLE_FAULT_STACK_SIZE, INTERRUPT_STACK_SLOTS, TaskState};
use crate::pic::{served_by, ChainedOffsets, PIC_1_OFFSET};

verus! {

/// Vector of the breakpoint exception (`int3`).
pub const BREAKPOINT_VECTOR: u8 = 3;

/// Vector of the double-fault exception.
pub const DOUBLE_FAULT_VECTOR: u8 = 8;

/// Number of entries in the vector table.
pub const VECTOR_COUNT: usize = 256;

/// The hardware interrupts this kernel serves, by controller line.
#[derive(Clone, Copy, Debug, PartialEq, Eq, Structural)]
pub enum InterruptIndex {
    /// Line 0 of the primary controller: the programmable interval timer.
    Timer,
    /// Line 1 of the primary controller: the PS/2 keyboard.
    Keyboard,
}

impl InterruptIndex {
    /// The vector that the interrupt arrives on once the controllers are
    /// remapped.
    pub open spec fn vector(self) -> u8 {
        match self {
            InterruptIndex::Timer => PIC_1_OFFSET,
            InterruptIndex::Keyboard => (PIC_1_OFFSET + 1) as u8,
        }
    }

    pub fn as_u8(self) -> (r: u8)
        ensures
            r == self.vector(),
    {
        match self {
            InterruptIndex::Timer => PIC_1_OFFSET,
            InterruptIndex::Keyboard => PIC_1_OFFSET + 1,
        }
    }

    pub fn as_usize(self) -> (r: usize)
        ensures
            r == self.vector() as usize,
    {
        self.as_u8() as usize
    }
}

/// The handlers that a vector can be bound to.
#[derive(Clone, Copy, Debug, PartialEq, Eq, Structural)]
pub enum HandlerKind {
    Breakpoint,
    DoubleFault,
    Timer,
    Keyboard,
}

/// A vector's entry: its handler, and the interrupt stack table slot to
/// switch to on entry, if any.
#[derive(Clone, Copy, Debug, PartialEq, Eq, Structural)]
pub struct Binding {
    pub handler: HandlerKind,
    pub stack_index: Option<u16>,
}

/// Why a change to the vector table was refused.
#[derive(Clone, Copy, Debug, PartialEq, Eq, Structural)]
pub enum BindError {
    /// The vector already has a handler.
    AlreadyBound,
    /// The vector has no handler to give a stack to.
    Unbound,
    /// The interrupt stack table has no such slot.
    BadStackIndex,
}

/// The vector table: one optional binding for each of the 256 vectors.
pub struct VectorTable {
    entries: [Option<Binding>; 256],
}

impl View for VectorTable {
    type V = Seq<Option<Binding>>;

    closed spec fn view(&self) -> Seq<Option<Binding>> {
        self.entries@
    }
}

impl VectorTable {
    pub open spec fn wf(&self) -> bool {
        self@.len() == VECTOR_COUNT
    }

    /// A table with no vector bound.
    pub fn new() -> (r: VectorTable)
        ensures
            r.wf(),
            forall|v: int| 0 <= v < VECTOR_COUNT ==> r@[v] is None,
    {
        let entries: [Option<Binding>; 256] = vstd::array::array_fill_for_copy_types(None);
        VectorTable { entries }
    }

    /// The binding of `vector`.
    pub fn binding(&self, vector: u8) -> (r: Option<Binding>)
        requires
            self.wf(),
        ensures
            r == self@[vector as int],
    {
        self.entries[vector as usize]
    }

    /// Binds `vector` to `handler`, on the current stack. A vector keeps
    /// the one handler it was first given.
    pub fn set_handler(&mut self, vector: u8, handler: HandlerKind) -> (r: Result<(), BindError>)
        requires
            old(self).wf(),
        ensures
            final(self).wf(),
            old(self)@[vector as int] is Some ==> r == Err::<(), BindError>(BindError::AlreadyBound)
                && final(self)@ == old(self)@,
            old(self)@[vector as int] is None ==> r is Ok && final(self)@ == old(self)@.update(
                vector as int,
                Some(Binding { handler, stack_index: None }),
            ),
    {
        let i = vector as usize;
        if self.entries[i].is_some() {
            return Err(BindError::AlreadyBound);
        }
        self.entries[i] = Some(Binding { handler, stack_index: None });
        Ok(())
    }

    /// Makes the handler of `vector` run on the stack in interrupt stack
    /// table slot `index`.
    pub fn set_stack_index(&mut self, vector: u8, index: u16) -> (r: Result<(), BindError>)
        requires
            old(self).wf(),
        ensures
            final(self).wf(),
            old(self)@[vector as int] is None ==> r == Err::<(), BindError>(BindError::Unbound)
                && final(self)@ == old(self)@,
            old(self)@[vector as int] is Some && index >= INTERRUPT_STACK_SLOTS ==> r == Err::<
                (),
                BindError,
            >(BindError::BadStackIndex) && final(self)@ == old(self)@,
            old(self)@[vector as int] is Some && index < INTERRUPT_STACK_SLOTS ==> r is Ok
                && final(self)@ == old(self)@.update(
                vector as int,
                Some(
                    Binding {
                        handler: old(self)@[vector as int]->Some_0.handler,
                        stack_index: Some(index),
                    },
                ),
            ),
    {
        let i = vector as usize;
        match self.entries[i] {
            None => Err(BindError::Unbound),
            Some(b) => {
                if index >= INTERRUPT_STACK_SLOTS {
                    Err(BindError::BadStackIndex)
                } else {
                    self.entries[i] = Some(Binding { handler: b.handler, stack_index: Some(index) });
                    Ok(())
                }
            },
        }
    }
}

/// The binding that this kernel gives each vector: the breakpoint and
/// double-fault exceptions, the latter on its own stack, and the timer and
/// keyboard interrupts; every other vector stays unbound.
pub open spec fn kernel_binding(vector: int) -> Option<Binding> {
    if vector == BREAKPOINT_VECTOR {
        Some(Binding { handler: HandlerKind::Breakpoint, stack_index: None })
    } else if vector == DOUBLE_FAULT_VECTOR {
        Some(Binding { handler: HandlerKind::DoubleFault, stack_index: Some(DOUBLE_FAULT_IST_INDEX) })
    } else if vector == InterruptIndex::Timer.vector() {
        Some(Binding { handler: HandlerKind::Timer, stack_index: None })
    } else if vector == InterruptIndex::Keyboard.vector() {
        Some(Binding { handler: HandlerKind::Keyboard, stack_index: None })
    } else {
        None
    }
}

/// Builds the kernel's vector table, ready to be loaded into the processor.
pub fn init_idt() -> (r: VectorTable)
    ensures
        r.wf(),
        forall|v: int| 0 <= v < VECTOR_COUNT ==> #[trigger] r@[v] == kernel_binding(v),
{
    let mut idt = VectorTable::new();
    let _ = idt.set_handler(BREAKPOINT_VECTOR, HandlerKind::Breakpoint);
    let _ = idt.set_handler(DOUBLE_FAULT_VECTOR, HandlerKind::DoubleFault);
    let _ = idt.set_stack_index(DOUBLE_FAULT_VECTOR, DOUBLE_FAULT_IST_INDEX);
    let _ = idt.set_handler(InterruptIndex::Timer.as_u8(), HandlerKind::Timer);
    let _ = idt.set_handler(InterruptIndex::Keyboard.as_u8(), HandlerKind::Keyboard);
    idt
}

/// The timer and keyboard vectors sit on the primary controller as the
/// kernel programs it, and the kernel's table binds each to its handler.
pub proof fn lemma_hardware_vectors_bound(offsets: ChainedOffsets, index: InterruptIndex)
    requires
        offsets.wf(),
        offsets.primary_offset_spec() == PIC_1_OFFSET,
    ensures
        served_by(offsets.primary_offset_spec(), index.vector() as int),
        !served_by(offsets.secondary_offset_spec(), index.vector() as int),
        index.vector() >= 32,
        index is Timer ==> kernel_binding(index.vector() as int) == Some(
            Binding { handler: HandlerKind::Timer, stack_index: None },
        ),
        index is Keyboard ==> kernel_binding(index.vector() as int) == Some(
            Binding { handler: HandlerKind::Keyboard, stack_index: None },
        ),
{
}

/// The kernel's table sends a double fault to a slot of the interrupt stack
/// table; a task state built for a reserved stack fills that slot with the
/// stack's end, so the handler never runs on the stack that overflowed.
pub proof fn lemma_double_fault_on_reserved_stack(t: TaskState, stack_start: u64)
    requires
        t@.len() == INTERRUPT_STACK_SLOTS,
        t@[DOUBLE_FAULT_IST_INDEX as int] == stack_start + DOUBLE_FAULT_STACK_SIZE,
    ensures
        kernel_binding(DOUBLE_FAULT_VECTOR as int) == Some(
            Binding { handler: HandlerKind::DoubleFault, stack_index: Some(DOUBLE_FAULT_IST_INDEX) },
        ),
        DOUBLE_FAULT_IST_INDEX < INTERRUPT_STACK_SLOTS,
        t@[DOUBLE_FAULT_IST_INDEX as int] == stack_start + DOUBLE_FAULT_STACK_SIZE,
        t@[DOUBLE_FAULT_IST_INDEX as int] != 0,
{
}

} // verus!
