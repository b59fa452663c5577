//! Tests of the core library: completions, flows, rings, resource limits,
//! buffer leases, Torus Panic, metrics, the io_uring encoding and the C
//! interface records.

use torus::async_api::{completion_output, WakerRegistry};
use torus::backend::RegisterBuffer;
use torus::cgroup::{MemoryProbe, ResourceLimiter, ResourceLimits};
use torus::error::Error;
use torus::ffi::{batch_flows, batch_status, completion_records, submit_errno, wait_errno, TorusCompletion, TorusOperation};
use torus::flow::Flow;
use torus::lease::{LeaseError, LeaseRegistry};
use torus::observability::{FlowSpan, Metrics, OpKind};
use torus::operation::{IoSlice, Operation};
use torus::result::TorusResult;
use torus::rings::{CompletionRing, SubmissionRing};
use torus::sys::opcodes;
use torus::sys::{io_uring_cqe, io_uring_params, setup_outcome};
use torus::torus_panic::TorusPanic;
use torus::uring::{ring_layout, UringBackend};

fn limits(ring_entries: u32, max_in_flight: u32) -> ResourceLimits {
    ResourceLimits { ring_entries, max_in_flight, memory_limit: None }
}

// ─── cgroup ────────────────────────────────────────────────────────────────

#[test]
fn test_resource_limits_detect() {
    let limits = ResourceLimits::detect(&MemoryProbe::unavailable());
    assert!(limits.ring_entries.is_power_of_two());
    assert!(limits.ring_entries >= 256);
    assert!(limits.max_in_flight >= 64);
}

#[test]
fn test_resource_limiter() {
    let mut limiter = ResourceLimiter::with_limits(limits(512, 10));

    assert!(limiter.can_submit());
    assert_eq!(limiter.in_flight(), 0);

    for _ in 0..10 {
        assert!(limiter.try_reserve());
    }
    assert_eq!(limiter.in_flight(), 10);
    assert!(!limiter.can_submit());
    assert!(!limiter.try_reserve());

    limiter.release();
    assert_eq!(limiter.in_flight(), 9);
    assert!(limiter.can_submit());
}

#[test]
fn test_resource_limiter_default() {
    let limiter = ResourceLimiter::new(&MemoryProbe::unavailable());
    assert!(limiter.recommended_ring_entries().is_power_of_two());
    assert!(limiter.limits().max_in_flight > 0);
}

#[test]
fn test_cgroup_limits_detected() {
    let limits = ResourceLimits::detect(&MemoryProbe::unavailable());
    assert!(limits.ring_entries.is_power_of_two());
    assert!(limits.ring_entries >= 256);
    assert!(limits.max_in_flight >= 64);
}

#[test]
fn test_cgroup_limiter_enforcement() {
    let mut limiter = ResourceLimiter::with_limits(limits(512, 5));

    for _ in 0..5 {
        assert!(limiter.try_reserve());
    }

    assert!(!limiter.try_reserve());
    assert_eq!(limiter.in_flight(), 5);

    limiter.release();
    assert_eq!(limiter.in_flight(), 4);
    assert!(limiter.try_reserve());
}

#[test]
fn cgroup_v2_limit_is_halved() {
    let probe = MemoryProbe {
        memory_max: Some("1073741824\n".to_string()),
        v1_limit_in_bytes: None,
        meminfo: None,
    };
    let limits = ResourceLimits::detect(&probe);
    assert_eq!(limits.memory_limit, Some(1073741824));
    // 512 MiB usable: 1% / 80 bytes = 67108 entries, clamped to 4096.
    assert_eq!(limits.ring_entries, 4096);
    // 5% / 128 bytes = 209715, clamped to 16384.
    assert_eq!(limits.max_in_flight, 16384);
}

#[test]
fn cgroup_v2_max_falls_back_to_v1() {
    let probe = MemoryProbe {
        memory_max: Some("max\n".to_string()),
        v1_limit_in_bytes: Some("  100000000 ".to_string()),
        meminfo: None,
    };
    let limits = ResourceLimits::detect(&probe);
    assert_eq!(limits.memory_limit, Some(100000000));
    // 50_000_000 usable: 500000 / 80 = 6250 -> 4096; 2_500_000 / 128 = 19531 -> 16384.
    assert_eq!(limits.ring_entries, 4096);
    assert_eq!(limits.max_in_flight, 16384);
}

#[test]
fn cgroup_small_limit_rounds_ring_up() {
    let probe = MemoryProbe {
        memory_max: Some("6000000".to_string()),
        v1_limit_in_bytes: None,
        meminfo: None,
    };
    let limits = ResourceLimits::detect(&probe);
    // 3_000_000 usable: 30000 / 80 = 375 -> next power of two 512.
    assert_eq!(limits.ring_entries, 512);
    // 150000 / 128 = 1171.
    assert_eq!(limits.max_in_flight, 1171);
}

#[test]
fn cgroup_v1_unlimited_falls_back_to_meminfo() {
    let probe = MemoryProbe {
        memory_max: None,
        v1_limit_in_bytes: Some("18446744073709551615\n".to_string()),
        meminfo: Some(
            "MemTotal:       16000000 kB\nMemFree:         1000000 kB\nMemAvailable:    8000000 kB\n"
                .to_string(),
        ),
    };
    let limits = ResourceLimits::detect(&probe);
    assert_eq!(limits.memory_limit, None);
    // 8_000_000 kB * 1024 / 10 = 819_200_000 bytes usable.
    assert_eq!(limits.ring_entries, 4096);
    assert_eq!(limits.max_in_flight, 16384);
}

#[test]
fn cgroup_tiny_memory_clamps_to_minimums() {
    let probe = MemoryProbe {
        memory_max: None,
        v1_limit_in_bytes: None,
        meminfo: Some("MemAvailable: 10 kB\n".to_string()),
    };
    let limits = ResourceLimits::detect(&probe);
    assert_eq!(limits.memory_limit, None);
    assert_eq!(limits.ring_entries, 256);
    assert_eq!(limits.max_in_flight, 64);
}

#[test]
fn cgroup_nothing_readable_uses_defaults() {
    let limits = ResourceLimits::detect(&MemoryProbe::unavailable());
    assert_eq!(limits.memory_limit, None);
    assert_eq!(limits.ring_entries, 1024);
    assert_eq!(limits.max_in_flight, 1024);
}

#[test]
fn limiter_release_undoes_reserve() {
    let mut limiter = ResourceLimiter::with_limits(limits(256, 3));
    assert!(limiter.try_reserve());
    assert!(limiter.try_reserve());
    let before = limiter.in_flight();
    assert!(limiter.try_reserve());
    limiter.release();
    assert_eq!(limiter.in_flight(), before);
    assert!(limiter.in_flight() <= 3);
}

// ─── results, flows, rings ─────────────────────────────────────────────────

#[test]
fn result_success_and_error() {
    let ok = TorusResult::new(4096, 7);
    assert!(ok.is_ok());
    assert_eq!(ok.bytes(), Some(4096));
    assert_eq!(ok.error(), None);
    assert_eq!(ok.raw(), 4096);

    let err = TorusResult::new(-5, 8);
    assert!(!err.is_ok());
    assert_eq!(err.bytes(), None);
    assert_eq!(err.error(), Some(5));
    assert_eq!(err.user_data, 8);
}

#[test]
fn flow_carries_user_data() {
    let mut flow = Flow::new(Operation::Close { fd: 3 });
    assert_eq!(flow.user_data(), 0);
    flow.set_user_data(42).set_user_data(43);
    assert_eq!(flow.user_data(), 43);
    let flow = Flow::with_user_data(Operation::Recv { fd: 4, buf: 0x1000, len: 10 }, 9);
    assert_eq!(flow.user_data(), 9);
    match flow.into_operation() {
        Operation::Recv { fd, buf, len } => {
            assert_eq!((fd, buf, len), (4, 0x1000, 10));
        }
        _ => panic!("expected Recv"),
    }
}

#[test]
fn submission_ring_publish_consumes_free_slots() {
    let mut ring = SubmissionRing::new(8);
    assert_eq!(ring.entries(), 8);
    assert_eq!(ring.free_slots(), 8);
    assert!(ring.has_room());
    let prev = ring.publish(3);
    assert_eq!(prev, 0);
    assert_eq!(ring.free_slots(), 5);
}

#[test]
fn completion_ring_drains_in_order() {
    let mut ring = CompletionRing::new(4);
    assert!(!ring.has_completions());
    ring.cqes[0] = io_uring_cqe { user_data: 1, res: 10, flags: 0 };
    ring.cqes[1] = io_uring_cqe { user_data: 2, res: -2, flags: 0 };
    ring.tail = 2;
    assert_eq!(ring.available(), 2);
    let first = ring.peek().unwrap();
    assert_eq!(first.user_data, 1);
    let drained = ring.drain();
    assert_eq!(drained.len(), 2);
    assert_eq!((drained[0].result, drained[0].user_data), (10, 1));
    assert_eq!((drained[1].result, drained[1].user_data), (-2, 2));
    assert_eq!(ring.available(), 0);
    assert!(ring.consume().is_none());
}

// ─── Torus Panic and errors ────────────────────────────────────────────────

#[test]
fn test_torus_panic_display() {
    let panic = TorusPanic::new("test violation", Some(0xdeadbeef));
    assert_eq!(panic.message(), "test violation");
    assert_eq!(panic.address(), Some(0xdeadbeef));
    assert_eq!(panic.display_string(), "Torus Panic: test violation at 0xdeadbeef");
}

#[test]
fn torus_panic_test_torus_panic_from_lease_error() {
    let error = LeaseError::NotRegistered;
    let panic = TorusPanic::from_lease_error(&error);
    assert_eq!(panic.message(), "buffer is not registered with the lease registry");
    assert_eq!(panic.address(), None);
}

#[test]
fn test_torus_panic_descriptive_message() {
    let panic = TorusPanic::new("test buffer violation", Some(0xdeadbeef));
    assert_eq!(panic.message(), "test buffer violation");
    assert_eq!(panic.address(), Some(0xdeadbeef));
}

#[test]
fn progressive_disclosure_test_torus_panic_from_lease_error() {
    let error = LeaseError::NotRegistered;
    let panic = TorusPanic::from_lease_error(&error);
    assert_eq!(panic.message(), "buffer is not registered with the lease registry");
}

#[test]
fn torus_panic_messages_for_each_lease_error() {
    let p = TorusPanic::from_lease_error(&LeaseError::InFlight { count: 3 });
    assert_eq!(p.message(), "buffer is in-flight (3 operations)");
    let p = TorusPanic::from_lease_error(&LeaseError::OutOfBounds {
        requested_end: 0x2000,
        region_end: 0x1800,
    });
    assert_eq!(
        p.message(),
        "buffer access extends past registered region (requested end=0x2000, region end=0x1800)"
    );
    let p = TorusPanic::from_lease_error(&LeaseError::Overlap { existing_start: 0xff, existing_len: 16 });
    assert_eq!(p.message(), "buffer overlaps with registered region at 0xff (len=16)");
    let p = TorusPanic::from_lease_error(&LeaseError::Violation {
        addr: 0x10,
        msg: "freed while in flight".to_string(),
    });
    assert_eq!(p.message(), "freed while in flight");
    assert_eq!(p.address(), Some(0x10));
    assert_eq!(p.display_string(), "Torus Panic: freed while in flight at 0x10");
    let p = TorusPanic::new("no address", None);
    assert_eq!(p.display_string(), "Torus Panic: no address");
}

#[test]
fn lease_error_descriptions() {
    assert_eq!(
        LeaseError::InFlight { count: 2 }.display_string(),
        "buffer is in-flight (2 operations) and cannot be unregistered"
    );
    assert_eq!(
        LeaseError::Violation { addr: 0, msg: "m".to_string() }.display_string(),
        "Torus Panic at 0x0: m"
    );
    assert_eq!(
        LeaseError::Overlap { existing_start: 4096, existing_len: 0 }.display_string(),
        "buffer overlaps with registered region at 0x1000 (len=0)"
    );
}

#[test]
fn error_descriptions() {
    assert_eq!(Error::SubmissionFull.display_string(), "submission queue is full");
    assert_eq!(Error::NothingAvailable.display_string(), "no completions available");
    assert_eq!(Error::Os(-12).display_string(), "os error: -12");
    assert_eq!(Error::Os(0).display_string(), "os error: 0");
    assert_eq!(Error::InvalidParam("ring_entries").display_string(), "invalid parameter: ring_entries");
    assert_eq!(Error::Backend("gone".to_string()).display_string(), "backend error: gone");
    match Error::from(11) {
        Error::Os(11) => {}
        _ => panic!("expected Os(11)"),
    }
}

// ─── buffer leases ─────────────────────────────────────────────────────────

#[test]
fn test_register_and_unregister() {
    let mut registry = LeaseRegistry::new();
    let mut buf = vec![0u8; 1024];
    let ptr = buf.as_mut_ptr() as usize;

    registry.register_mut(ptr, 1024).unwrap();
    assert_eq!(registry.region_count(), 1);

    registry.unregister(ptr).unwrap();
    assert_eq!(registry.region_count(), 0);
}

#[test]
fn test_register_overlap_detection() {
    let mut registry = LeaseRegistry::new();
    let mut buf1 = vec![0u8; 1024];
    let ptr = buf1.as_mut_ptr() as usize;

    registry.register_mut(ptr, 1024).unwrap();

    let result = registry.register(ptr + 512, 1024);
    assert!(result.is_err());
    match result {
        Err(LeaseError::Overlap { .. }) => {}
        _ => panic!("expected Overlap error"),
    }
}

#[test]
fn test_checkout_and_checkin() {
    let mut registry = LeaseRegistry::new();
    let mut buf = vec![0u8; 1024];
    let ptr = buf.as_mut_ptr() as usize;

    registry.register_mut(ptr, 1024).unwrap();

    registry.checkout(ptr, 100).unwrap();
    assert!(registry.has_in_flight());

    registry.checkin(ptr);
    assert!(!registry.has_in_flight());
}

#[test]
fn test_checkout_out_of_bounds() {
    let mut registry = LeaseRegistry::new();
    let mut buf = vec![0u8; 100];
    let ptr = buf.as_mut_ptr() as usize;

    registry.register_mut(ptr, 100).unwrap();

    let result = registry.checkout(ptr, 200);
    assert!(result.is_err());
    match result {
        Err(LeaseError::OutOfBounds { .. }) => {}
        _ => panic!("expected OutOfBounds error"),
    }
}

#[test]
fn test_verify() {
    let mut registry = LeaseRegistry::new();
    let mut buf = vec![0u8; 1024];
    let ptr = buf.as_mut_ptr() as usize;

    registry.register_mut(ptr, 1024).unwrap();

    assert!(!registry.verify(ptr, 100).unwrap());

    registry.checkout(ptr, 100).unwrap();
    assert!(registry.verify(ptr, 100).unwrap());

    registry.checkin(ptr);
    assert!(!registry.verify(ptr, 100).unwrap());
}

#[test]
fn test_unregister_in_flight() {
    let mut registry = LeaseRegistry::new();
    let mut buf = vec![0u8; 1024];
    let ptr = buf.as_mut_ptr() as usize;

    registry.register_mut(ptr, 1024).unwrap();

    registry.checkout(ptr, 100).unwrap();

    let result = registry.unregister(ptr);
    assert!(result.is_err());
    match result {
        Err(LeaseError::InFlight { count }) => assert_eq!(count, 1),
        _ => panic!("expected InFlight error"),
    }

    registry.checkin(ptr);
    registry.unregister(ptr).unwrap();
    assert_eq!(registry.region_count(), 0);
}

#[test]
fn test_unregister_not_registered() {
    let mut registry = LeaseRegistry::new();
    let buf = [0u8; 1024];
    let ptr = buf.as_ptr() as usize;

    let result = registry.unregister(ptr);
    assert!(result.is_err());
    match result {
        Err(LeaseError::NotRegistered) => {}
        _ => panic!("expected NotRegistered error"),
    }
}

#[test]
fn test_lease_registry_integration() {
    let mut registry = LeaseRegistry::new();
    let mut buf = vec![0u8; 1024];
    let ptr = buf.as_mut_ptr() as usize;

    registry.register_mut(ptr, buf.len()).unwrap();

    registry.checkout(ptr, 100).unwrap();
    assert!(registry.has_in_flight());

    registry.checkin(ptr);
    assert!(!registry.has_in_flight());

    registry.unregister(ptr).unwrap();
}

#[test]
fn test_lease_overlap_rejection() {
    let mut registry = LeaseRegistry::new();
    let mut buf = vec![0u8; 1024];
    let ptr = buf.as_mut_ptr() as usize;

    registry.register_mut(ptr, 1024).unwrap();

    let result = registry.register(ptr + 512, 1024);
    assert!(result.is_err());
}

#[test]
fn lease_adjacent_regions_do_not_overlap() {
    let mut registry = LeaseRegistry::new();
    registry.register(0x1000, 0x100).unwrap();
    registry.register(0x1100, 0x100).unwrap();
    registry.register(0x0f00, 0x100).unwrap();
    assert_eq!(registry.region_count(), 3);
    // The region reported is the last one starting before the new end.
    match registry.register(0x10ff, 2) {
        Err(LeaseError::Overlap { existing_start, existing_len }) => {
            assert_eq!((existing_start, existing_len), (0x1100, 0x100));
        }
        _ => panic!("expected Overlap"),
    }
    // An address inside the second region checks out that region.
    registry.checkout(0x1180, 0x80).unwrap();
    assert!(registry.verify(0x1100, 1).unwrap());
    assert!(!registry.verify(0x1000, 1).unwrap());
    match registry.checkout(0x1180, 0x81) {
        Err(LeaseError::OutOfBounds { requested_end, region_end }) => {
            assert_eq!((requested_end, region_end), (0x1201, 0x1200));
        }
        _ => panic!("expected OutOfBounds"),
    }
    match registry.verify(0x2000, 1) {
        Err(LeaseError::NotRegistered) => {}
        _ => panic!("expected NotRegistered"),
    }
}

#[test]
fn lease_checkin_undoes_checkout() {
    let mut registry = LeaseRegistry::new();
    registry.register(0x4000, 0x1000).unwrap();
    registry.checkout(0x4000, 0x10).unwrap();
    registry.checkout(0x4800, 0x10).unwrap();
    registry.checkin(0x4800);
    assert!(registry.has_in_flight());
    registry.checkin(0x4000);
    assert!(!registry.has_in_flight());
    // Checking in an address outside every region changes nothing.
    registry.checkin(0x9000);
    assert_eq!(registry.region_count(), 1);
}

// ─── metrics ───────────────────────────────────────────────────────────────

#[test]
fn op_kind_index_in_range() {
    for op in [
        OpKind::Read,
        OpKind::Write,
        OpKind::Readv,
        OpKind::Writev,
        OpKind::Recv,
        OpKind::Send,
        OpKind::Accept,
        OpKind::Connect,
        OpKind::Close,
    ] {
        assert!(op.index() < OpKind::COUNT);
    }
}

#[test]
fn metrics_record_and_snapshot() {
    let mut m = Metrics::new();
    let before_total = m.total();
    let before_errors = m.errors();

    let read = Flow::with_user_data(Operation::Read { fd: 7, buf: 0, len: 0, offset: 0 }, 1);
    FlowSpan::new(&read).complete(4096, &mut m);

    let write = Flow::with_user_data(Operation::Write { fd: 7, buf: 0, len: 0, offset: 0 }, 2);
    FlowSpan::new(&write).complete(-5, &mut m);

    assert_eq!(m.total(), before_total + 2);
    assert_eq!(m.errors(), before_errors + 1);

    let hist = m.histogram(OpKind::Read);
    let snap = hist.snapshot();
    assert_eq!(snap.iter().sum::<u64>(), 1);
    assert!(!hist.boundaries().is_empty());
}

#[test]
fn metrics_latency_buckets() {
    let mut m = Metrics::new();
    m.record(OpKind::Send, 0, true);
    m.record(OpKind::Send, 1, true);
    m.record(OpKind::Send, 999, true);
    m.record(OpKind::Send, 5_000_000, false);
    m.record(OpKind::Send, u128::MAX, true);
    let h = m.histogram(OpKind::Send);
    assert_eq!(h.boundaries(), &[1, 10, 100, 1_000, 10_000, 100_000, 1_000_000]);
    assert_eq!(h.snapshot(), vec![1, 1, 0, 1, 0, 0, 0, 2]);
    assert_eq!(m.histogram(OpKind::Recv).snapshot(), vec![0; 8]);
    assert_eq!(m.total(), 5);
    assert_eq!(m.errors(), 1);
    let op = Operation::Readv { fd: 1, bufs: vec![], offset: 0 };
    assert_eq!(OpKind::from_op(&op), OpKind::Readv);
    assert_eq!(OpKind::Close.index(), 8);
}

// ─── io_uring encoding ─────────────────────────────────────────────────────

#[test]
fn uring_plan_encodes_each_flow() {
    let mut backend = UringBackend::from_fd(5);
    backend
        .apply_registration(&[RegisterBuffer { ptr: 0x10000, len: 4096 }, RegisterBuffer { ptr: 0x20000, len: 4096 }], 0)
        .unwrap();
    let flows = vec![
        Flow::with_user_data(Operation::Read { fd: 3, buf: 0x20000, len: 512, offset: 4096 }, 11),
        Flow::with_user_data(Operation::Write { fd: 3, buf: 0x30000, len: 100, offset: 0 }, 12),
        Flow::with_user_data(
            Operation::Readv {
                fd: 4,
                bufs: vec![IoSlice { buf: 0x10000, len: 100 }, IoSlice { buf: 0x50000, len: 50 }],
                offset: 1000,
            },
            13,
        ),
        Flow::with_user_data(Operation::Writev { fd: 4, bufs: vec![], offset: 0 }, 14),
        Flow::with_user_data(Operation::Close { fd: 9 }, 15),
    ];
    let sqes = backend.plan_submission(&flows).unwrap();
    assert_eq!(sqes.len(), 6);

    assert_eq!(sqes[0].opcode, opcodes::IORING_OP_READ_FIXED);
    assert_eq!(sqes[0].buf_group, 1);
    assert_eq!((sqes[0].fd, sqes[0].addr_splice_off_in, sqes[0].len, sqes[0].off_addr2), (3, 0x20000, 512, 4096));
    assert_eq!(sqes[0].user_data, 11);

    assert_eq!(sqes[1].opcode, opcodes::IORING_OP_WRITE);
    assert_eq!(sqes[1].buf_group, 0);
    assert_eq!(sqes[1].user_data, 12);

    assert_eq!(sqes[2].opcode, opcodes::IORING_OP_READ_FIXED);
    assert_eq!((sqes[2].addr_splice_off_in, sqes[2].len, sqes[2].off_addr2), (0x10000, 100, 1000));
    assert_eq!(sqes[3].opcode, opcodes::IORING_OP_READ);
    assert_eq!((sqes[3].addr_splice_off_in, sqes[3].len, sqes[3].off_addr2), (0x50000, 50, 1100));
    assert_eq!((sqes[2].user_data, sqes[3].user_data), (13, 13));

    assert_eq!(sqes[4].opcode, opcodes::IORING_OP_NOP);
    assert_eq!(sqes[4].user_data, 14);

    assert_eq!(sqes[5].opcode, opcodes::IORING_OP_CLOSE);
    assert_eq!((sqes[5].fd, sqes[5].user_data), (9, 15));

    match backend.plan_submission(&[]) {
        Err(Error::SubmissionFull) => {}
        _ => panic!("expected SubmissionFull"),
    }
}

#[test]
fn test_uring_backend_creation() {
    let backend = setup_outcome(7).map(UringBackend::from_fd);
    assert!(backend.is_ok(), "failed to create uring backend: {:?}", backend.err());
    let backend = backend.unwrap();
    assert_eq!(backend.fd(), 7);
    assert_eq!(backend.in_flight(), 0);
    assert_eq!(setup_outcome(-12).err(), Some("ENOMEM: insufficient kernel resources"));
    assert_eq!(setup_outcome(-1).err(), Some("unknown error during io_uring_setup"));
}

#[test]
fn uring_kernel_answers() {
    let mut backend = UringBackend::from_fd(5);
    assert_eq!(backend.wait_min_complete(), 0);
    assert_eq!(backend.finish_submit(3, 2, 3).unwrap(), 2);
    assert_eq!(backend.in_flight(), 3);
    assert_eq!(backend.wait_min_complete(), 1);
    match backend.finish_submit(2, 2, -16) {
        Err(Error::Os(16)) => {}
        _ => panic!("expected Os(16)"),
    }
    assert_eq!(backend.in_flight(), 3);
    let mut results = Vec::new();
    let cqes = [io_uring_cqe { user_data: 1, res: 8, flags: 0 }, io_uring_cqe { user_data: 2, res: -9, flags: 0 }];
    assert_eq!(backend.reap_entries(&cqes, &mut results), 2);
    assert_eq!(backend.in_flight(), 1);
    assert_eq!((results[1].result, results[1].user_data), (-9, 2));
    assert!(UringBackend::wait_outcome(0).is_ok());
    match UringBackend::wait_outcome(-4) {
        Err(Error::Os(4)) => {}
        _ => panic!("expected Os(4)"),
    }
    let s = UringBackend::multi_accept_sqe(6, 0x100, 0x200, 77);
    assert_eq!((s.opcode, s.ioprio, s.off_addr2, s.user_data), (opcodes::IORING_OP_ACCEPT, 1, 0x200, 77));
    let s = UringBackend::multi_recv_sqe(6, 0x100, 64, 78);
    assert_eq!((s.opcode, s.ioprio, s.len), (opcodes::IORING_OP_RECV, 2, 64));
    let s = UringBackend::cancel_sqe(77, 79);
    assert_eq!((s.opcode, s.addr_splice_off_in, s.user_data), (opcodes::IORING_OP_ASYNC_CANCEL, 77, 79));
}

#[test]
fn uring_ring_layout_rounds_to_pages() {
    let mut params = io_uring_params {
        sq_entries: 256,
        cq_entries: 512,
        flags: 0,
        sq_thread_cpu: 0,
        sq_thread_idle: 0,
        features: 0,
        wq_fd: 0,
        resv: [0; 3],
        sq_off: torus::sys::io_sqring_offsets {
            head: 0, tail: 64, ring_mask: 256, ring_entries: 260, flags: 276, dropped: 272, array: 576, resv1: 0, resv2: 0,
        },
        cq_off: torus::sys::io_cqring_offsets {
            head: 128, tail: 192, ring_mask: 264, ring_entries: 268, overflow: 284, cqes: 320, flags: 280, resv1: 0, resv2: 0,
        },
    };
    let l = ring_layout(&params, 4096);
    assert_eq!(l.sq_ring_size, 4096);
    assert_eq!(l.sqe_array_size, 16384);
    assert_eq!(l.cq_ring_size, 12288);
    params.sq_entries = 1;
    let l = ring_layout(&params, 4096);
    assert_eq!(l.sq_ring_size, 4096);
    assert_eq!(l.sqe_array_size, 4096);
}

// ─── async registry ────────────────────────────────────────────────────────

#[test]
fn waker_registry_matches_completions() {
    let mut reg = WakerRegistry::new();
    let a = reg.alloc_id();
    let b = reg.alloc_id();
    assert_eq!((a, b), (1, 2));
    reg.register(a);
    assert!(reg.complete(TorusResult::new(10, a)));
    assert!(!reg.complete(TorusResult::new(-2, b)));
    let r = reg.take_result(a).unwrap();
    assert_eq!(r.result, 10);
    assert!(reg.take_result(a).is_none());
    reg.unregister(b);
    assert!(reg.take_result(b).is_none());
    assert_eq!(completion_output(&TorusResult::new(10, 1)).unwrap(), 10);
    match completion_output(&TorusResult::new(-2, 1)) {
        Err(Error::Os(2)) => {}
        _ => panic!("expected Os(2)"),
    }
}

// ─── C interface records ───────────────────────────────────────────────────

#[test]
fn test_torus_operation_size() {
    assert_eq!(std::mem::size_of::<TorusOperation>(), 40);
}

#[test]
fn test_torus_completion_size() {
    assert_eq!(std::mem::size_of::<TorusCompletion>(), 16);
}

#[test]
fn ffi_batches_and_errnos() {
    let ops = vec![
        TorusOperation { op_type: 0, fd: 1, buf: 0x10, len: 5, offset: 7, user_data: 100 },
        TorusOperation { op_type: 4, fd: 2, buf: 0, len: 0, offset: 0, user_data: 101 },
    ];
    let flows = batch_flows(&ops).unwrap();
    assert_eq!(flows.len(), 2);
    assert_eq!(flows[1].user_data(), 101);
    match flows[0].operation() {
        Operation::Read { fd, buf, len, offset } => assert_eq!((*fd, *buf, *len, *offset), (1, 0x10, 5, 7)),
        _ => panic!("expected Read"),
    }
    let bad = vec![TorusOperation { op_type: 9, fd: 1, buf: 0, len: 0, offset: 0, user_data: 0 }];
    assert_eq!(batch_flows(&bad).err(), Some(-22));
    assert_eq!(batch_flows(&[]).err(), Some(-22));
    assert_eq!(submit_errno(&Error::SubmissionFull), -11);
    assert_eq!(submit_errno(&Error::Os(-5)), -5);
    assert_eq!(submit_errno(&Error::NothingAvailable), -22);
    assert_eq!(wait_errno(&Error::SubmissionFull), -22);
    assert_eq!(batch_status(&Ok(3)), 3);
    let results = vec![TorusResult::new(1, 1), TorusResult::new(2, 2), TorusResult::new(3, 3)];
    let recs = completion_records(&results, 2);
    assert_eq!(recs.len(), 2);
    assert_eq!((recs[1].result, recs[1].user_data), (2, 2));
}

#[test]
fn sqpoll_is_chosen_at_setup_only() {
    let p = torus::sys::io_uring_params::sqpoll(250);
    assert_eq!((p.flags, p.sq_thread_idle, p.sq_entries, p.cq_entries), (2, 250, 0, 0));
    let z = torus::sys::io_uring_params::zeroed();
    assert_eq!((z.flags, z.sq_thread_idle), (0, 0));
    let b = torus::uring::UringBackend::from_fd(7);
    assert_eq!(b.enable_sqpoll(10), Err(38));
}

#[test]
fn full_rings_report_no_room_and_every_completion() {
    let mut ring = SubmissionRing::new(4);
    assert_eq!(ring.publish(4), 0);
    assert_eq!(ring.free_slots(), 0);
    assert!(!ring.has_room());
    let mut cq = CompletionRing::new(4);
    for i in 0..4 {
        cq.cqes[i] = io_uring_cqe { user_data: i as u64, res: 1, flags: 0 };
    }
    cq.tail = 4;
    assert_eq!(cq.available(), 4);
    let drained = cq.drain();
    assert_eq!(drained.len(), 4);
    assert_eq!(cq.head, 4);
    assert_eq!(cq.available(), 0);
}

#[test]
fn uring_plans_only_what_fits_the_ring() {
    let b = UringBackend::from_fd(7);
    let bufs = vec![IoSlice { buf: 0x1000, len: 4 }, IoSlice { buf: 0x2000, len: 4 }, IoSlice { buf: 0x3000, len: 4 }];
    let flows = vec![
        Flow::with_user_data(Operation::Read { fd: 3, buf: 0x10, len: 8, offset: 0 }, 1),
        Flow::with_user_data(Operation::Readv { fd: 3, bufs, offset: 0 }, 2),
        Flow::with_user_data(Operation::Close { fd: 3 }, 3),
    ];
    let plan = b.plan_ring_submission(&flows, 0, 6, 8).unwrap();
    assert_eq!(plan.flows, 1);
    assert_eq!(plan.writes.len(), 1);
    assert_eq!((plan.writes[0].slot, plan.writes[0].sqe.user_data), (6, 1));
    let plan = b.plan_ring_submission(&flows, 0, 0, 8).unwrap();
    assert_eq!(plan.flows, 3);
    let slots: Vec<u32> = plan.writes.iter().map(|w| w.slot).collect();
    assert_eq!(slots, vec![0, 1, 2, 3, 4]);
    let wrapped = b.plan_ring_submission(&flows, u32::MAX - 1, u32::MAX, 8).unwrap();
    assert_eq!(wrapped.writes[0].slot, 7);
    assert_eq!(wrapped.writes[1].slot, 0);
    match b.plan_ring_submission(&flows, 0, 8, 8) {
        Err(Error::SubmissionFull) => {}
        _ => panic!("expected SubmissionFull"),
    }
    assert!(matches!(UringBackend::ring_slot_for_one(2, 5, 4), Ok(1)));
    assert!(matches!(UringBackend::ring_slot_for_one(1, 5, 4), Err(Error::SubmissionFull)));
}
