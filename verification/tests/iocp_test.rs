use torus::flow::Flow;
use torus::iocp::{
    accept_address_copy, accept_completion, connect_binding, connect_completion, file_call_answer,
    overlapped_ex_answer, overlapped_offset, plan_flow, socket_call_answer, transfer_completion, IocpCall,
    IocpQueue, AF_INET, AF_INET6, ERROR_IO_PENDING, WSAEAFNOSUPPORT,
};
use torus::operation::{IoSlice, Operation};
use torus::result::TorusResult;

#[test]
fn overlapped_offset_splits_into_halves() {
    assert_eq!(overlapped_offset(0x1_2345_6789), (0x2345_6789, 1));
    assert_eq!(overlapped_offset(u64::MAX), (u32::MAX, u32::MAX));
    assert_eq!(overlapped_offset(7), (7, 0));
}

#[test]
fn plan_flow_gives_one_call_per_non_empty_buffer() {
    let bufs = vec![IoSlice { buf: 0x1000, len: 10 }, IoSlice { buf: 0x2000, len: 0 }, IoSlice { buf: 0x3000, len: 5 }];
    let flow = Flow::with_user_data(Operation::Readv { fd: 4, bufs, offset: 100 }, 9);
    let calls = plan_flow(&flow);
    assert_eq!(
        calls,
        vec![
            IocpCall::ReadFile { handle: 4, buf: 0x1000, len: 10, offset_low: 100, offset_high: 0 },
            IocpCall::ReadFile { handle: 4, buf: 0x3000, len: 5, offset_low: 110, offset_high: 0 },
        ]
    );
    let w = Flow::new(Operation::Write { fd: 5, buf: 0x10, len: 3, offset: 1 << 32 });
    assert_eq!(
        plan_flow(&w),
        vec![IocpCall::WriteFile { handle: 5, buf: 0x10, len: 3, offset_low: 0, offset_high: 1 }]
    );
    assert_eq!(plan_flow(&Flow::new(Operation::Close { fd: -1 })), vec![IocpCall::CloseHandle { handle: -1 }]);
    assert_eq!(plan_flow(&Flow::new(Operation::Close { fd: 8 })), vec![IocpCall::CloseSocket { socket: 8 }]);
    assert_eq!(
        plan_flow(&Flow::new(Operation::Recv { fd: 6, buf: 0x40, len: 16 })),
        vec![IocpCall::WsaRecv { socket: 6, buf: 0x40, len: 16 }]
    );
}

#[test]
fn call_answers_follow_each_calls_convention() {
    assert_eq!(file_call_answer(0, 5), Err(5));
    assert_eq!(file_call_answer(0, ERROR_IO_PENDING), Ok(()));
    assert_eq!(file_call_answer(1, 0), Ok(()));
    assert_eq!(socket_call_answer(-1, 10054), Err(10054));
    assert_eq!(socket_call_answer(0, 0), Ok(()));
    assert_eq!(socket_call_answer(-1, ERROR_IO_PENDING), Ok(()));
    assert_eq!(overlapped_ex_answer(0, ERROR_IO_PENDING), Ok(()));
    assert_eq!(overlapped_ex_answer(0, 10061), Err(10061));
    assert_eq!(overlapped_ex_answer(1, 0), Ok(()));
}

#[test]
fn iocp_queue_reports_failures_at_once_and_counts_every_flow() {
    let mut q = IocpQueue::new();
    let flows = vec![
        Flow::with_user_data(Operation::Read { fd: 3, buf: 0x10, len: 8, offset: 0 }, 1),
        Flow::with_user_data(Operation::Send { fd: 4, buf: 0x20, len: 8 }, 2),
        Flow::with_user_data(Operation::Close { fd: 5 }, 3),
    ];
    let answers = vec![vec![Ok(())], vec![Err(10054)], vec![]];
    assert_eq!(q.submit(&flows, &answers), 3);
    assert_eq!(q.in_flight(), 3);
    assert!(q.ready());
    q.push_completion(transfer_completion(8, 0, 1));
    let mut out = Vec::new();
    assert_eq!(q.reap(&mut out), 3);
    let got: Vec<(i64, u64)> = out.iter().map(|r| (r.result, r.user_data)).collect();
    assert_eq!(got, vec![(-10054, 2), (0, 3), (8, 1)]);
    assert_eq!(q.in_flight(), 0);
    assert!(q.ready());
    let mut empty = Vec::new();
    assert_eq!(q.reap(&mut empty), 0);
    assert_eq!(q.in_flight(), 0);
}

#[test]
fn port_completions_report_bytes_sockets_or_errors() {
    let r = transfer_completion(0, 38, 4);
    assert_eq!((r.result, r.user_data), (-38, 4));
    let r = accept_completion(77, Ok(()), 5);
    assert_eq!((r.result, r.user_data), (77, 5));
    let r: TorusResult = accept_completion(77, Err(64), 5);
    assert_eq!(r.result, -64);
    assert_eq!(connect_completion(Ok(()), 6).result, 0);
    assert_eq!(connect_completion(Err(10061), 6).result, -10061);
}

#[test]
fn accepted_address_is_cut_to_the_callers_room() {
    assert_eq!(accept_address_copy(16, 128), Some((16, 16)));
    assert_eq!(accept_address_copy(28, 16), Some((16, 28)));
    assert_eq!(accept_address_copy(16, 0), None);
    assert_eq!(accept_address_copy(0, 16), None);
}

#[test]
fn connect_binds_unbound_sockets_by_family() {
    assert_eq!(connect_binding(true, 99), Ok(None));
    assert_eq!(connect_binding(false, AF_INET), Ok(Some(AF_INET)));
    assert_eq!(connect_binding(false, AF_INET6), Ok(Some(AF_INET6)));
    assert_eq!(connect_binding(false, 1), Err(WSAEAFNOSUPPORT));
}

#[test]
fn in_flight_wraps_when_more_completions_than_flows_are_reaped() {
    // A vectored flow of two buffers is counted once but completes twice.
    let mut q = IocpQueue::new();
    let bufs = vec![IoSlice { buf: 0x1000, len: 4 }, IoSlice { buf: 0x2000, len: 4 }];
    let flows = vec![Flow::with_user_data(Operation::Writev { fd: 3, bufs, offset: 0 }, 1)];
    assert_eq!(plan_flow(&flows[0]).len(), 2);
    assert_eq!(q.submit(&flows, &vec![vec![Ok(()), Ok(())]]), 1);
    q.push_completion(transfer_completion(4, 0, 1));
    q.push_completion(transfer_completion(4, 0, 1));
    let mut out = Vec::new();
    assert_eq!(q.reap(&mut out), 2);
    assert_eq!(q.in_flight(), u32::MAX);
}
