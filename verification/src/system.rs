//! BEAM thread introspection.
use vstd::prelude::*;

verus! {

/// `ERL_NIF_THR_UNDEFINED`: not a scheduler thread.
pub const THR_UNDEFINED: i32 = 0;

/// `ERL_NIF_THR_NORMAL_SCHEDULER`: a normal scheduler thread.
pub const THR_NORMAL_SCHEDULER: i32 = 1;

/// `ERL_NIF_THR_DIRTY_CPU_SCHEDULER`: a dirty CPU scheduler thread.
pub const THR_DIRTY_CPU_SCHEDULER: i32 = 2;

/// `ERL_NIF_THR_DIRTY_IO_SCHEDULER`: a dirty I/O scheduler thread.
pub const THR_DIRTY_IO_SCHEDULER: i32 = 3;

/// The type of thread the current code is running on.
#[derive(Clone, Copy, PartialEq, Eq, Debug, Structural)]
pub enum ThreadType {
    /// A normal BEAM scheduler thread.
    Scheduler,
    /// A dirty CPU scheduler thread.
    DirtyCpu,
    /// A dirty I/O scheduler thread.
    DirtyIo,
    /// A non-scheduler thread (for example one created by the user).
    NonScheduler,
    /// A code the BEAM returned that this build does not know.
    Unknown(i32),
}

impl ThreadType {
    /// The thread type for the code `enif_thread_type` returned.
    pub fn from_code(code: i32) -> (r: ThreadType)
        ensures
            r == (if code == THR_UNDEFINED {
                ThreadType::NonScheduler
            } else if code == THR_NORMAL_SCHEDULER {
                ThreadType::Scheduler
            } else if code == THR_DIRTY_CPU_SCHEDULER {
                ThreadType::DirtyCpu
            } else if code == THR_DIRTY_IO_SCHEDULER {
                ThreadType::DirtyIo
            } else {
                ThreadType::Unknown(code)
            }),
    {
        if code == THR_UNDEFINED {
            ThreadType::NonScheduler
        } else if code == THR_NORMAL_SCHEDULER {
            ThreadType::Scheduler
        } else if code == THR_DIRTY_CPU_SCHEDULER {
            ThreadType::DirtyCpu
        } else if code == THR_DIRTY_IO_SCHEDULER {
            ThreadType::DirtyIo
        } else {
            ThreadType::Unknown(code)
        }
    }
}

} // verus!
