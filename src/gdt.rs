//! The task-state structure's interrupt stack table, which gives the
//! double-fault handler a stack of its own, apart from the kernel stack
//! whose overflow is the usual cause of a double fault.

use vstd::prelude::*;
use x86_64::VirtAddr;

verus! {

/// Slot of the interrupt stack table that the double-fault handler runs on.
pub const DOUBLE_FAULT_IST_INDEX: u16 = 0;

/// Number of slots in the interrupt stack table.
pub const INTERRUPT_STACK_SLOTS: u16 = 7;

/// Size in bytes of the stack reserved for the double-fault handler.
pub const DOUBLE_FAULT_STACK_SIZE: u64 = 4096 * 5;

/// Whether `addr` is a canonical x86-64 address as it stands: bits 47 to
/// 63 all clear or all set.
pub open spec fn canonical(addr: u64) -> bool {
    addr >> 47u64 == 0 || addr >> 47u64 == 0x1ffff
}

/// Relies on x86_64's `VirtAddr::try_new` and `VirtAddr::as_u64`: an address
/// whose bits 47 to 63 are all clear or all set is taken as it is; one with
/// only bit 47 set among them is sign-extended; any other is refused.
#[verifier::external_body]
fn virt_addr(addr: u64) -> (r: Option<u64>)
    ensures
        canonical(addr) ==> r == Some(addr),
        addr >> 47u64 == 1 ==> r == Some(addr | 0xffff_0000_0000_0000u64),
        !canonical(addr) && addr >> 47u64 != 1 ==> r is None,
{
    VirtAddr::try_new(addr).ok().map(|a| a.as_u64())
}

/// The interrupt stack table of the task-state structure: the initial
/// stack pointer of each slot, 0 where a slot is unused.
pub struct TaskState {
    interrupt_stacks: [u64; 7],
}

impl View for TaskState {
    type V = Seq<u64>;

    closed spec fn view(&self) -> Seq<u64> {
        self.interrupt_stacks@
    }
}

impl TaskState {
    /// A task state with every slot unused.
    pub fn new() -> (r: TaskState)
        ensures
            r@.len() == INTERRUPT_STACK_SLOTS,
            forall|i: int| 0 <= i < INTERRUPT_STACK_SLOTS ==> r@[i] == 0,
    {
        TaskState { interrupt_stacks: [0, 0, 0, 0, 0, 0, 0] }
    }

    /// The initial stack pointer of `slot`.
    pub fn interrupt_stack(&self, slot: u16) -> (r: u64)
        requires
            slot < INTERRUPT_STACK_SLOTS,
        ensures
            r == self@[slot as int],
    {
        proof {
            assert(self@.len() == INTERRUPT_STACK_SLOTS);
        }
        self.interrupt_stacks[slot as usize]
    }

    /// A task state whose double-fault slot holds the end of the stack that
    /// starts at `stack_start` and spans `stack_size` bytes (stacks grow
    /// down); `None` where that end overflows or is not a canonical address.
    pub fn with_double_fault_stack(stack_start: u64, stack_size: u64) -> (r: Option<TaskState>)
        ensures
            r is Some <==> stack_start as int + stack_size as int <= u64::MAX && canonical(
                (stack_start + stack_size) as u64,
            ),
            r matches Some(t) ==> t@.len() == INTERRUPT_STACK_SLOTS && t@[DOUBLE_FAULT_IST_INDEX
                as int] == stack_start + stack_size && forall|i: int|
                0 <= i < INTERRUPT_STACK_SLOTS && i != DOUBLE_FAULT_IST_INDEX ==> t@[i] == 0,
    {
        let end = match stack_start.checked_add(stack_size) {
            Some(e) => e,
            None => return None,
        };
        proof {
            assert(end >> 47u64 == 1 ==> (end | 0xffff_0000_0000_0000u64) != end) by (bit_vector);
        }
        match virt_addr(end) {
            Some(top) => {
                if top != end {
                    return None;
                }
                let mut t = TaskState::new();
                t.interrupt_stacks[DOUBLE_FAULT_IST_INDEX as usize] = top;
                Some(t)
            },
            None => None,
        }
    }
}

} // verus!
