//! Bring-up and interrupt-handling core of a small single-core kernel:
//! the task-state stack slot for fatal faults, the vector table bindings,
//! the chained interrupt controllers' vector offsets, the decisions taken
//! by each exception and hardware interrupt handler, the keyboard's
//! scancode decoder and the text-mode screen.

use vstd::prelude::*;

pub mod dispatch;
pub mod gdt;
pub mod interrupts;
pub mod keyboard;
pub mod pic;
pub mod vga_buffer;

verus! {

/// I/O port of the emulator's exit device.
pub const EXIT_PORT: u16 = 0xf4;

/// How a test run ends, as written to the emulator's exit device.
#[derive(Clone, Copy, Debug, PartialEq, Eq, Structural)]
pub enum QemuExitCode {
    Success,
    Failed,
}

impl QemuExitCode {
    pub open spec fn code_spec(self) -> u32 {
        match self {
            QemuExitCode::Success => 0x10,
            QemuExitCode::Failed => 0x11,
        }
    }

    /// The value written to the exit port; the emulator exits with status
    /// `(code << 1) | 1`, which stays clear of its own statuses.
    pub fn code(self) -> (r: u32)
        ensures
            r == self.code_spec(),
    {
        match self {
            QemuExitCode::Success => 0x10,
            QemuExitCode::Failed => 0x11,
        }
    }
}

} // verus!
