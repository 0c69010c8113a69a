//! The system call interface between user tasks and the kernel.
use vstd::prelude::*;

verus! {

/// The service a task asks of the kernel with a trap.
#[derive(Clone, Copy, PartialEq, Eq, Structural, Debug)]
pub enum TrapReason {
    /// Give up the processor to the next task.
    YieldTask,
    /// Sleep for the time carried in the payload.
    Sleep,
    /// End the calling task.
    TerminateTask,
    /// Stop preemption, so that the caller runs undisturbed.
    EnableRt,
    /// Resume preemption.
    DisableRt,
    /// Write the zero-terminated string the payload points to.
    WriteStdOut,
}

} // verus!
