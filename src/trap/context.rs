//! The register state saved on the kernel stack when a trap is taken.
use vstd::prelude::*;

verus! {

/// Register slot of the system-call number (`a7`).
pub const SYSCALL_ID_REG: usize = 17;

/// Register slot of the first system-call argument and of the result (`a0`).
pub const SYSCALL_ARG0_REG: usize = 10;

/// Register slot of the second system-call argument (`a1`).
pub const SYSCALL_ARG1_REG: usize = 11;

/// Register slot of the third system-call argument (`a2`).
pub const SYSCALL_ARG2_REG: usize = 12;

/// Width in bytes of the `ecall` instruction that raises a system call.
pub const ECALL_WIDTH: usize = 4;

/// Application register state captured at trap entry and restored at exit.
#[derive(Clone, Copy, Debug, PartialEq, Eq)]
pub struct TrapContext {
    /// General-purpose registers `x0` to `x31`.
    pub x: [usize; 32],
    /// Saved processor status word (`sstatus`).
    pub sstatus: usize,
    /// Address at which the application resumes (`sepc`).
    pub sepc: usize,
}

impl TrapContext {
    /// The call number held by the context.
    pub open spec fn syscall_id(self) -> usize {
        self.x[SYSCALL_ID_REG as int]
    }

    /// The three call arguments held by the context.
    pub open spec fn syscall_args(self) -> [usize; 3] {
        [self.x[SYSCALL_ARG0_REG as int], self.x[SYSCALL_ARG1_REG as int], self.x[SYSCALL_ARG2_REG as int]]
    }

    /// Reads the call number.
    pub fn get_syscall_id(&self) -> (r: usize)
        ensures
            r == self.syscall_id(),
    {
        self.x[SYSCALL_ID_REG]
    }

    /// Reads the three call arguments.
    pub fn get_syscall_args(&self) -> (r: [usize; 3])
        ensures
            r == self.syscall_args(),
    {
        [self.x[SYSCALL_ARG0_REG], self.x[SYSCALL_ARG1_REG], self.x[SYSCALL_ARG2_REG]]
    }

    /// Writes a call's result into the return-value slot.
    pub fn set_syscall_ret(&mut self, ret: usize)
        ensures
            final(self).x@ == old(self).x@.update(SYSCALL_ARG0_REG as int, ret),
            final(self).sstatus == old(self).sstatus,
            final(self).sepc == old(self).sepc,
    {
        self.x[SYSCALL_ARG0_REG] = ret;
    }
}

} // verus!
