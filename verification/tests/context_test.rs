//! Tests of the Torus context, the pool, the project generator and the
//! laws on concrete values.

use torus::backend::{Backend, RegisterBuffer};
use torus::async_api::{accept_output, completion_output, unit_output, FutureState, OperationFuture, PollStep, WakerRegistry};
use torus::context::{single_submit_outcome, Torus, TorusPool};
use torus::error::Error;
use torus::flow::Flow;
use torus::lease::LeaseRegistry;
use torus::operation::{IoSlice, Operation};
use torus::result::TorusResult;
use torus::scaffold::{cargo_toml, parse_args, ScaffoldCommand};

/// A backend that enqueues up to `room` flows per call and completes them
/// immediately with their user data.
struct Recorder {
    room: usize,
    submitted: Vec<u64>,
    vectored: Vec<usize>,
    pending: Vec<TorusResult>,
    registered: Vec<(usize, usize)>,
}

impl Recorder {
    fn new(room: usize) -> Self {
        Recorder { room, submitted: Vec::new(), vectored: Vec::new(), pending: Vec::new(), registered: Vec::new() }
    }
}

impl Backend for Recorder {
    fn submit(&mut self, flows: &[Flow]) -> Result<usize, Error> {
        let n = flows.len().min(self.room);
        for f in &flows[..n] {
            self.submitted.push(f.user_data());
            if let Operation::Readv { bufs, .. } = f.operation() {
                self.vectored.push(bufs.len());
            }
            self.pending.push(TorusResult::new(1, f.user_data()));
        }
        Ok(n)
    }

    fn reap(&mut self, results: &mut Vec<TorusResult>) -> Result<usize, Error> {
        let n = self.pending.len();
        results.append(&mut self.pending);
        Ok(n)
    }

    fn wait(&mut self, _timeout_us: u64) -> Result<(), Error> {
        Ok(())
    }

    fn in_flight(&self) -> u32 {
        self.pending.len() as u32
    }

    fn register_buffers(&mut self, buffers: &[RegisterBuffer]) -> Result<(), Error> {
        self.registered = buffers.iter().map(|b| (b.ptr, b.len)).collect();
        Ok(())
    }

    fn unregister_buffers(&mut self) -> Result<(), Error> {
        self.registered.clear();
        Ok(())
    }
}

#[test]
fn torus_rejects_ring_sizes_that_are_not_powers_of_two() {
    match Torus::new(100, Recorder::new(8)) {
        Err(Error::InvalidParam(m)) => assert_eq!(m, "ring_entries must be a power of two"),
        _ => panic!("expected InvalidParam"),
    }
    let t = Torus::new(256, Recorder::new(8)).unwrap();
    assert_eq!(t.submission_ring().entries(), 256);
    assert_eq!(t.completion_ring().entries(), 256);
}

#[test]
fn torus_submit_reports_a_full_queue() {
    let mut t = Torus::new(8, Recorder::new(0)).unwrap();
    match t.submit(&Flow::new(Operation::Close { fd: 1 })) {
        Err(Error::SubmissionFull) => {}
        _ => panic!("expected SubmissionFull"),
    }
    let mut t = Torus::new(8, Recorder::new(4)).unwrap();
    t.submit(&Flow::with_user_data(Operation::Close { fd: 1 }, 5)).unwrap();
    t.readv(3, &[IoSlice { buf: 0x10, len: 4 }, IoSlice { buf: 0x20, len: 4 }], 0, 6).unwrap();
    assert_eq!(t.in_flight(), 2);
    let mut results = Vec::new();
    assert_eq!(t.reap(&mut results).unwrap(), 2);
    assert_eq!((results[0].user_data, results[1].user_data), (5, 6));
    assert!(single_submit_outcome(Ok(2)).is_ok());
    match single_submit_outcome(Err(Error::Os(4))) {
        Err(Error::Os(4)) => {}
        _ => panic!("expected Os(4)"),
    }
}

#[test]
fn torus_registers_lease_regions() {
    let mut t = Torus::new(8, Recorder::new(4)).unwrap();
    let mut registry = LeaseRegistry::new();
    t.register_leases(&registry).unwrap();
    registry.register(0x2000, 0x100).unwrap();
    registry.register(0x1000, 0x200).unwrap();
    t.register_leases(&registry).unwrap();
    let regs = registry.as_register_buffers();
    assert_eq!(regs.len(), 2);
    assert_eq!((regs[0].ptr, regs[0].len), (0x1000, 0x200));
    assert_eq!((regs[1].ptr, regs[1].len), (0x2000, 0x100));
}

#[test]
fn pool_spreads_submissions_round_robin() {
    match TorusPool::new(8, Vec::<Recorder>::new()) {
        Err(Error::InvalidParam(m)) => assert_eq!(m, "pool count must be > 0"),
        _ => panic!("expected InvalidParam"),
    }
    let mut pool = TorusPool::new(8, vec![Recorder::new(8), Recorder::new(8), Recorder::new(8)]).unwrap();
    assert_eq!(pool.len(), 3);
    assert!(!pool.is_empty());
    let flows: Vec<Flow> = (0..7).map(|i| Flow::with_user_data(Operation::Close { fd: 1 }, i)).collect();
    assert_eq!(pool.submit_batch(&flows).unwrap(), 7);
    assert_eq!(pool.get(0).unwrap().in_flight(), 3);
    assert_eq!(pool.get(1).unwrap().in_flight(), 2);
    assert_eq!(pool.get(2).unwrap().in_flight(), 2);
    assert!(pool.get(3).is_none());
    assert_eq!(pool.in_flight(), 7);
    let mut results = Vec::new();
    assert_eq!(pool.reap(&mut results).unwrap(), 7);
    let firsts: Vec<u64> = results.iter().map(|r| r.user_data).collect();
    assert_eq!(firsts, vec![0, 3, 6, 1, 4, 2, 5]);
}

#[test]
fn scaffold_reads_the_command_line() {
    let args = |v: &[&str]| v.iter().map(|s| s.to_string()).collect::<Vec<String>>();
    match parse_args(&args(&["demo"])).unwrap() {
        ScaffoldCommand::Create { name, dir } => assert_eq!((name.as_str(), dir.as_str()), ("demo", ".")),
        _ => panic!("expected Create"),
    }
    match parse_args(&args(&["--path", "/tmp/x", "demo", "other"])).unwrap() {
        ScaffoldCommand::Create { name, dir } => assert_eq!((name.as_str(), dir.as_str()), ("demo", "/tmp/x")),
        _ => panic!("expected Create"),
    }
    match parse_args(&args(&["demo", "-h"])).unwrap() {
        ScaffoldCommand::Help => {}
        _ => panic!("expected Help"),
    }
    assert_eq!(parse_args(&args(&["demo", "--path"])).unwrap_err(), "--path requires a directory argument");
    assert_eq!(
        parse_args(&args(&[])).unwrap_err(),
        "missing project name\nusage: cargo-torus-new <project-name> [--path <dir>]"
    );
    assert_eq!(parse_args(&args(&[""])).unwrap_err(), "project name must not be empty");
    let toml = cargo_toml("demo");
    assert!(toml.starts_with("[package]\nname = \"demo\"\nversion = \"0.1.0\"\n"));
    assert!(toml.ends_with("[dependencies]\ntorus = \"0.1.0\"\n"));
}

#[test]
fn operation_future_submits_once_then_takes_its_completion() {
    let mut t = Torus::new(8, Recorder::new(8)).unwrap();
    let mut registry = WakerRegistry::new();
    let mut fut = OperationFuture::new(Operation::Read { fd: 3, buf: 0x1000, len: 64, offset: 0 });
    assert_eq!(fut.state(), FutureState::Init);
    assert!(matches!(fut.poll_step(&mut t, &mut registry), PollStep::Pending));
    assert_eq!(fut.state(), FutureState::Waiting);
    assert_eq!(fut.user_data(), 1);
    // Nothing delivered yet: still pending.
    assert!(matches!(fut.poll_step(&mut t, &mut registry), PollStep::Pending));
    let mut reaped = Vec::new();
    t.reap(&mut reaped).unwrap();
    for r in reaped {
        registry.complete(r);
    }
    match fut.poll_step(&mut t, &mut registry) {
        PollStep::Completed(r) => {
            assert_eq!(r.user_data, 1);
            assert_eq!(completion_output(&r).unwrap(), 1);
        }
        _ => panic!("expected the completion"),
    }
    assert_eq!(fut.state(), FutureState::Done);
    assert!(registry.take_result(1).is_none());
}

#[test]
fn operation_future_fails_when_the_queue_is_full() {
    let mut t = Torus::new(8, Recorder::new(0)).unwrap();
    let mut registry = WakerRegistry::new();
    let mut fut = OperationFuture::new(Operation::Close { fd: 3 });
    match fut.poll_step(&mut t, &mut registry) {
        PollStep::Failed(Error::SubmissionFull) => {}
        _ => panic!("expected SubmissionFull"),
    }
    assert_eq!(fut.state(), FutureState::Done);
    let waiting = OperationFuture::new(Operation::Close { fd: 4 });
    waiting.cancel(&mut registry);
    assert!(unit_output(&TorusResult::new(0, 9)).is_ok());
    match unit_output(&TorusResult::new(-9, 9)) {
        Err(Error::Os(9)) => {}
        _ => panic!("expected Os(9)"),
    }
    assert_eq!(accept_output(&TorusResult::new(12, 1)).unwrap(), 12);
}

#[test]
fn raw_submissions_go_straight_to_the_backend() {
    let mut t = Torus::new(8, Recorder::new(8)).unwrap();
    {
        let mut raw = t.raw();
        raw.submit_read(3, 0x1000, 16, 0).unwrap();
        raw.submit_close(3).unwrap();
        let mut out = Vec::new();
        assert_eq!(raw.reap(&mut out).unwrap(), 2);
        raw.wait(0).unwrap();
    }
    let mut full = Torus::new(8, Recorder::new(0)).unwrap();
    match full.raw().submit_send(4, 0x2000, 8) {
        Err(Error::SubmissionFull) => {}
        _ => panic!("expected SubmissionFull"),
    }
}
