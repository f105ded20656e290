use os::trap::{complete_syscall, trap_handler, AppFault, Exception, TrapAction, TrapCause, TrapContext};

const INTERRUPT_FLAG: usize = 1 << (usize::BITS - 1);

fn context() -> TrapContext {
    let mut x = [0usize; 32];
    for (i, r) in x.iter_mut().enumerate() {
        *r = 100 + i;
    }
    x[17] = 64;
    x[10] = 1;
    x[11] = 0x8040_0000;
    x[12] = 13;
    TrapContext { x, sstatus: 0x120, sepc: 0x8040_1000 }
}

#[test]
fn decode_exception_codes() {
    assert_eq!(TrapCause::from_bits(8), TrapCause::Exception(Exception::UserEnvCall));
    assert_eq!(TrapCause::from_bits(7), TrapCause::Exception(Exception::StoreFault));
    assert_eq!(TrapCause::from_bits(15), TrapCause::Exception(Exception::StorePageFault));
    assert_eq!(TrapCause::from_bits(2), TrapCause::Exception(Exception::IllegalInstruction));
    assert_eq!(TrapCause::from_bits(12), TrapCause::Exception(Exception::InstructionPageFault));
    assert_eq!(TrapCause::from_bits(0), TrapCause::Exception(Exception::InstructionMisaligned));
}

#[test]
fn decode_unassigned_code_is_unknown() {
    assert_eq!(TrapCause::from_bits(4), TrapCause::Exception(Exception::Unknown));
    assert_eq!(TrapCause::from_bits(16), TrapCause::Exception(Exception::Unknown));
}

#[test]
fn decode_interrupt() {
    assert_eq!(TrapCause::from_bits(INTERRUPT_FLAG | 5), TrapCause::Interrupt(5));
    assert_eq!(TrapCause::from_bits(INTERRUPT_FLAG | 8), TrapCause::Interrupt(8));
    assert_eq!(TrapCause::from_bits(usize::MAX), TrapCause::Interrupt(usize::MAX >> 1));
}

#[test]
fn syscall_advances_and_returns_result() {
    let before = context();
    let mut cx = before;
    let action = trap_handler(&mut cx, TrapCause::from_bits(8));
    assert_eq!(action, TrapAction::Syscall { id: 64, args: [1, 0x8040_0000, 13] });
    assert_eq!(cx.sepc, before.sepc + 4);
    assert_eq!(cx.x, before.x);
    complete_syscall(&mut cx, 13);
    assert_eq!(cx.sepc, before.sepc + 4);
    assert_eq!(cx.x[10], 13);
    assert_eq!(cx.sstatus, before.sstatus);
    for i in 0..32 {
        if i != 10 {
            assert_eq!(cx.x[i], before.x[i]);
        }
    }
}

#[test]
fn syscall_negative_result_is_stored_as_word() {
    let mut cx = context();
    let action = trap_handler(&mut cx, TrapCause::Exception(Exception::UserEnvCall));
    assert!(matches!(action, TrapAction::Syscall { id: 64, .. }));
    complete_syscall(&mut cx, -1);
    assert_eq!(cx.x[10], usize::MAX);
}

#[test]
fn syscall_at_largest_resume_address() {
    let mut cx = context();
    cx.sepc = usize::MAX - 4;
    trap_handler(&mut cx, TrapCause::Exception(Exception::UserEnvCall));
    assert_eq!(cx.sepc, usize::MAX);
}

#[test]
fn store_faults_abandon_the_application() {
    for bits in [7usize, 15] {
        let before = context();
        let mut cx = before;
        let action = trap_handler(&mut cx, TrapCause::from_bits(bits));
        assert_eq!(action, TrapAction::KillApp(AppFault::PageFault));
        assert_eq!(cx, before);
    }
}

#[test]
fn illegal_instruction_abandons_the_application() {
    let before = context();
    let mut cx = before;
    let action = trap_handler(&mut cx, TrapCause::from_bits(2));
    assert_eq!(action, TrapAction::KillApp(AppFault::IllegalInstruction));
    assert_eq!(cx, before);
}

#[test]
fn other_causes_are_unsupported() {
    for bits in [0usize, 3, 5, 13, 4, INTERRUPT_FLAG | 5, INTERRUPT_FLAG | 1] {
        let before = context();
        let mut cx = before;
        let cause = TrapCause::from_bits(bits);
        let action = trap_handler(&mut cx, cause);
        assert_eq!(action, TrapAction::Unsupported(cause));
        assert_eq!(cx, before);
    }
}

#[test]
fn fault_reports_name_the_fault() {
    assert_eq!(
        AppFault::PageFault.report(),
        "[kernel] PageFault in application, kernel killed it."
    );
    assert_eq!(
        AppFault::IllegalInstruction.report(),
        "[kernel] IllegalInstruction in application, kernel killed it."
    );
}
