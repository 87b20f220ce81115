//! Executor decisions.

use embassy_mspm0::executor::{pender, Executor, Executors, Idle, InterruptExecutor, Pend, THREAD_PENDER};

const BOTH: Executors = Executors { thread: true, interrupt: true };
const THREAD: Executors = Executors { thread: true, interrupt: false };
const INTERRUPT: Executors = Executors { thread: false, interrupt: true };
const NEITHER: Executors = Executors { thread: false, interrupt: false };

#[test]
fn pending() {
    assert_eq!(pender(THREAD_PENDER, BOTH), Pend::SignalThread);
    assert_eq!(pender(5, BOTH), Pend::SetPending(1 << 5));
    assert_eq!(pender(5, THREAD), Pend::SignalThread);
    assert_eq!(pender(31, INTERRUPT), Pend::SetPending(1 << 31));
    assert_eq!(pender(5, NEITHER), Pend::Nothing);
}

#[test]
fn a_signal_is_never_slept_through() {
    let mut executor = Executor::new();

    assert_eq!(executor.idle(true), Idle::DeepSleep);
    assert_eq!(executor.idle(false), Idle::Wfi);
    executor.signal();
    executor.signal();
    assert_eq!(executor.idle(true), Idle::Poll);
    assert_eq!(executor.idle(true), Idle::DeepSleep);
    assert_eq!(Executor::default().idle(false), Idle::Wfi);
}

#[test]
fn an_interrupt_executor_starts_once() {
    let mut executor = InterruptExecutor::default();

    assert!(!executor.is_started());
    assert_eq!(executor.start(12), 12);
    assert!(executor.is_started());
    assert_eq!(executor.spawner(), 12);
    assert_eq!(pender(executor.spawner(), BOTH), Pend::SetPending(1 << 12));
}
