use torus::error::Error;
use torus::flow::Flow;
use torus::kqueue::{
    kqueue_outcome, kqueue_plan, socket_outcome, wait_step, KeventChange, KqCall, KqueueAction, KqueueReactor,
    KqueueStep, ReactorAction, SocketOp, EAGAIN, EINPROGRESS, EVFILT_READ, EVFILT_WRITE, EV_ERROR,
};
use torus::operation::Operation;

#[test]
fn kqueue_files_are_called_and_sockets_wait_for_readiness() {
    let read = Flow::with_user_data(Operation::Read { fd: 3, buf: 0x10, len: 8, offset: 64 }, 1);
    assert_eq!(kqueue_plan(&read), KqueueStep::Syscall(KqCall::Pread { fd: 3, buf: 0x10, len: 8, offset: 64 }));
    let close = Flow::with_user_data(Operation::Close { fd: 5 }, 2);
    assert_eq!(kqueue_plan(&close), KqueueStep::Syscall(KqCall::Close { fd: 5 }));
    let recv = Flow::with_user_data(Operation::Recv { fd: 6, buf: 0x20, len: 16 }, 3);
    let op = SocketOp::Recv { fd: 6, buf: 0x20, len: 16 };
    assert_eq!(
        kqueue_plan(&recv),
        KqueueStep::Arm(KeventChange { ident: 6, filter: EVFILT_READ, flags: 0x11, udata: 3 }, op)
    );
    let send = Flow::with_user_data(Operation::Send { fd: 6, buf: 0x20, len: 16 }, 4);
    match kqueue_plan(&send) {
        KqueueStep::Arm(c, _) => assert_eq!(c.filter, EVFILT_WRITE),
        _ => panic!("expected Arm"),
    }
    let connect = Flow::with_user_data(Operation::Connect { fd: 7, addr: 0x30, addrlen: 16 }, 5);
    assert_eq!(kqueue_plan(&connect), KqueueStep::Syscall(KqCall::Connect { fd: 7, addr: 0x30, addrlen: 16 }));
}

#[test]
fn kqueue_answers_complete_or_rearm() {
    let read = Flow::with_user_data(Operation::Read { fd: 3, buf: 0x10, len: 8, offset: 0 }, 1);
    match kqueue_outcome(&read, 8, 0) {
        KqueueAction::Complete(r) => assert_eq!((r.result, r.user_data), (8, 1)),
        _ => panic!("expected Complete"),
    }
    match kqueue_outcome(&read, -1, EAGAIN) {
        KqueueAction::Complete(r) => assert_eq!(r.result, -35),
        _ => panic!("a file read is not re-armed"),
    }
    let connect = Flow::with_user_data(Operation::Connect { fd: 7, addr: 0x30, addrlen: 16 }, 5);
    match kqueue_outcome(&connect, -1, EINPROGRESS) {
        KqueueAction::Arm(c, op) => {
            assert_eq!((c.ident, c.filter, c.udata), (7, EVFILT_WRITE, 5));
            assert_eq!(op, SocketOp::Connect { fd: 7 });
        }
        _ => panic!("expected Arm"),
    }
    let op = SocketOp::Recv { fd: 6, buf: 0x20, len: 16 };
    assert!(matches!(socket_outcome(op, 3, -1, EAGAIN), KqueueAction::Arm(_, _)));
    match socket_outcome(op, 3, -1, 54) {
        KqueueAction::Complete(r) => assert_eq!(r.result, -54),
        _ => panic!("expected Complete"),
    }
}

#[test]
fn kqueue_reactor_runs_each_waiting_operation_once() {
    let mut reactor = KqueueReactor::new();
    let op = SocketOp::Accept { fd: 9, addr: 0, addrlen: 0 };
    reactor.arm(KeventChange { ident: 9, filter: EVFILT_READ, flags: 0x11, udata: 11 }, op, 0, 0);
    reactor.arm(KeventChange { ident: 8, filter: EVFILT_WRITE, flags: 0x11, udata: 12 }, SocketOp::Connect { fd: 8 }, 0, 0);
    assert_eq!(reactor.waiting_count(), 2);
    match reactor.reactor_event(11, 0, 0) {
        ReactorAction::Syscall(c, o, ud) => {
            assert_eq!((c, ud), (KqCall::Accept { fd: 9, addr: 0, addrlen: 0 }, 11));
            assert_eq!(o, op);
        }
        _ => panic!("expected the accept"),
    }
    assert!(matches!(reactor.reactor_event(11, 0, 0), ReactorAction::Ignore));
    match reactor.reactor_event(12, EV_ERROR, 61) {
        ReactorAction::Complete(r) => assert_eq!((r.result, r.user_data), (-61, 12)),
        _ => panic!("expected Complete"),
    }
    assert_eq!(reactor.waiting_count(), 0);
}

#[test]
fn kqueue_failed_registration_completes_and_reap_counts_down() {
    let mut reactor = KqueueReactor::new();
    assert_eq!(reactor.submitted(2), 2);
    assert_eq!(reactor.in_flight(), 2);
    let op = SocketOp::Send { fd: 4, buf: 0x40, len: 3 };
    reactor.arm(KeventChange { ident: 4, filter: EVFILT_WRITE, flags: 0x11, udata: 21 }, op, -1, 9);
    assert_eq!(reactor.waiting_count(), 0);
    reactor.complete(torus::result::TorusResult::new(5, 22));
    assert_eq!(reactor.queued_count(), 2);
    let mut results = Vec::new();
    assert_eq!(reactor.reap(&mut results), 2);
    assert_eq!((results[0].result, results[0].user_data), (-9, 21));
    assert_eq!((results[1].result, results[1].user_data), (5, 22));
    assert_eq!(reactor.in_flight(), 0);
    assert_eq!(reactor.queued_count(), 0);
}

#[test]
fn kqueue_waits_end_on_completions_or_timeout() {
    assert!(matches!(wait_step(0, 0, 5, false), Some(Ok(()))));
    assert!(matches!(wait_step(2, 1, 5, false), Some(Ok(()))));
    assert!(matches!(wait_step(2, 0, 5, true), Some(Err(Error::Os(110)))));
    assert!(wait_step(2, 0, 0, true).is_none());
    assert!(wait_step(2, 0, 5, false).is_none());
}
