//! Trap handling: the saved register context, the decoding of the trap
//! cause, and the dispatch decision taken for each trap.
//!
//! The kernel's trap entry reads the cause register, decodes it with
//! [`TrapCause::from_bits`] and asks [`trap_handler`] what to do. A system
//! call is then run by the kernel's call table and its result written back
//! with [`complete_syscall`]; a faulting application is abandoned; any other
//! cause is fatal.
use vstd::prelude::*;
use vstd::string::StringExecFns;

pub mod cause;
pub mod context;

pub use cause::{Exception, TrapCause};
pub use context::TrapContext;
use context::{ECALL_WIDTH, SYSCALL_ARG0_REG};

verus! {

/// An application fault after which the application is abandoned.
#[derive(Clone, Copy, Debug, PartialEq, Eq, Structural)]
pub enum AppFault {
    /// A store fault or a store page fault.
    PageFault,
    /// An illegal instruction.
    IllegalInstruction,
}

/// The one-line report printed when an application is abandoned.
pub open spec fn fault_report(fault: AppFault) -> Seq<char> {
    match fault {
        AppFault::PageFault => "[kernel] PageFault in application, kernel killed it."@,
        AppFault::IllegalInstruction => "[kernel] IllegalInstruction in application, kernel killed it."@,
    }
}

impl AppFault {
    /// The line reporting this fault, naming its class.
    pub fn report(&self) -> (r: String)
        ensures
            r@ == fault_report(*self),
    {
        match self {
            AppFault::PageFault => String::from_str(
                "[kernel] PageFault in application, kernel killed it.",
            ),
            AppFault::IllegalInstruction => String::from_str(
                "[kernel] IllegalInstruction in application, kernel killed it.",
            ),
        }
    }
}

/// What the kernel does once a trap has been dispatched.
#[derive(Clone, Copy, Debug, PartialEq, Eq)]
pub enum TrapAction {
    /// Run system call `id` on `args` and resume the application.
    Syscall { id: usize, args: [usize; 3] },
    /// Report the fault and start the next application.
    KillApp(AppFault),
    /// The cause is not supported: a fatal kernel error.
    Unsupported(TrapCause),
}

/// The cause raised by an application's `ecall`.
pub open spec fn is_syscall(cause: TrapCause) -> bool {
    cause == TrapCause::Exception(Exception::UserEnvCall)
}

/// Whether a trap with this cause may be dispatched on this context: the
/// resume address of a system call must be advanced without overflow.
pub open spec fn can_dispatch(cx: TrapContext, cause: TrapCause) -> bool {
    is_syscall(cause) ==> cx.sepc + ECALL_WIDTH <= usize::MAX
}

/// The action that a trap with this cause calls for.
pub open spec fn action_for(cx: TrapContext, cause: TrapCause) -> TrapAction {
    match cause {
        TrapCause::Exception(Exception::UserEnvCall) => TrapAction::Syscall {
            id: cx.syscall_id(),
            args: cx.syscall_args(),
        },
        TrapCause::Exception(Exception::StoreFault) => TrapAction::KillApp(AppFault::PageFault),
        TrapCause::Exception(Exception::StorePageFault) => TrapAction::KillApp(AppFault::PageFault),
        TrapCause::Exception(Exception::IllegalInstruction) => TrapAction::KillApp(
            AppFault::IllegalInstruction,
        ),
        _ => TrapAction::Unsupported(cause),
    }
}

/// The context once a trap with this cause has been dispatched: a system
/// call moves the resume address past the `ecall`; nothing else changes.
pub open spec fn context_after(cx: TrapContext, cause: TrapCause) -> TrapContext {
    if is_syscall(cause) {
        TrapContext { sepc: (cx.sepc + ECALL_WIDTH) as usize, ..cx }
    } else {
        cx
    }
}

/// `after` is `before` with `ret` stored in the return-value slot.
pub open spec fn syscall_completed(before: TrapContext, after: TrapContext, ret: isize) -> bool {
    &&& after.x@ == before.x@.update(SYSCALL_ARG0_REG as int, ret as usize)
    &&& after.sstatus == before.sstatus
    &&& after.sepc == before.sepc
}

/// Decides what a trap with the given cause calls for, and advances the
/// resume address when the trap is a system call.
pub fn trap_handler(cx: &mut TrapContext, cause: TrapCause) -> (r: TrapAction)
    requires
        can_dispatch(*old(cx), cause),
    ensures
        r == action_for(*old(cx), cause),
        *final(cx) == context_after(*old(cx), cause),
{
    match cause {
        TrapCause::Exception(Exception::UserEnvCall) => {
            cx.sepc = cx.sepc + ECALL_WIDTH;
            let id = cx.get_syscall_id();
            let args = cx.get_syscall_args();
            TrapAction::Syscall { id, args }
        },
        TrapCause::Exception(Exception::StoreFault) | TrapCause::Exception(
            Exception::StorePageFault,
        ) => TrapAction::KillApp(AppFault::PageFault),
        TrapCause::Exception(Exception::IllegalInstruction) => TrapAction::KillApp(
            AppFault::IllegalInstruction,
        ),
        _ => TrapAction::Unsupported(cause),
    }
}

/// Stores a system call's signed result, as a register word, in the
/// return-value slot of the context.
pub fn complete_syscall(cx: &mut TrapContext, ret: isize)
    ensures
        syscall_completed(*old(cx), *final(cx), ret),
{
    cx.set_syscall_ret(ret as usize);
}

/// A completed system call leaves the context as the call found it, but
/// with the resume address advanced by exactly the width of the `ecall` and
/// the result in the return-value slot; the call number and arguments it was
/// given are those the context held.
pub proof fn lemma_syscall_trap(cx: TrapContext, after: TrapContext, ret: isize)
    requires
        can_dispatch(cx, TrapCause::Exception(Exception::UserEnvCall)),
        syscall_completed(
            context_after(cx, TrapCause::Exception(Exception::UserEnvCall)),
            after,
            ret,
        ),
    ensures
        action_for(cx, TrapCause::Exception(Exception::UserEnvCall)) == (TrapAction::Syscall {
            id: cx.syscall_id(),
            args: cx.syscall_args(),
        }),
        after.sepc == cx.sepc + 4,
        after.x@ == cx.x@.update(10, ret as usize),
        after.sstatus == cx.sstatus,
{
}

/// A store fault, a store page fault or an illegal instruction abandons the
/// application: the trap never resumes it, and its context is left as it was.
pub proof fn lemma_fault_abandons(cx: TrapContext, cause: TrapCause)
    requires
        cause == TrapCause::Exception(Exception::StoreFault) || cause == TrapCause::Exception(
            Exception::StorePageFault,
        ) || cause == TrapCause::Exception(Exception::IllegalInstruction),
    ensures
        action_for(cx, cause) is KillApp,
        context_after(cx, cause) == cx,
{
}

/// Every cause other than a system call, a store fault, a store page fault
/// or an illegal instruction is fatal, and leaves the context as it was.
pub proof fn lemma_unsupported_is_fatal(cx: TrapContext, cause: TrapCause)
    requires
        cause != TrapCause::Exception(Exception::UserEnvCall),
        cause != TrapCause::Exception(Exception::StoreFault),
        cause != TrapCause::Exception(Exception::StorePageFault),
        cause != TrapCause::Exception(Exception::IllegalInstruction),
    ensures
        action_for(cx, cause) == TrapAction::Unsupported(cause),
        context_after(cx, cause) == cx,
{
}

} // verus!
