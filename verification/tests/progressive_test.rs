use torus::async_api::{FutureState, OperationFuture};
use torus::backend::Backend;
use torus::context::Torus;
use torus::error::Error;
use torus::flow::Flow;
use torus::operation::Operation;
use torus::result::TorusResult;

/// A backend that completes every submitted flow at once with 42.
struct MockBackend {
    completions: Vec<TorusResult>,
}

impl MockBackend {
    fn new() -> Self {
        MockBackend { completions: Vec::new() }
    }
}

impl Backend for MockBackend {
    fn submit(&mut self, flows: &[Flow]) -> Result<usize, Error> {
        for flow in flows {
            self.completions.push(TorusResult::new(42, flow.user_data()));
        }
        Ok(flows.len())
    }

    fn reap(&mut self, results: &mut Vec<TorusResult>) -> Result<usize, Error> {
        let before = results.len();
        while let Some(r) = self.completions.pop() {
            results.push(r);
        }
        Ok(results.len() - before)
    }

    fn wait(&mut self, _timeout_us: u64) -> Result<(), Error> {
        Ok(())
    }

    fn in_flight(&self) -> u32 {
        0
    }

    fn register_buffers(&mut self, _buffers: &[torus::backend::RegisterBuffer]) -> Result<(), Error> {
        Ok(())
    }

    fn unregister_buffers(&mut self) -> Result<(), Error> {
        Ok(())
    }
}

#[test]
fn test_high_level_file_read() {
    let _torus = Torus::new(256, MockBackend::new()).unwrap();
    let mut buf = vec![0u8; 1024];
    let fd = 42;
    let future = OperationFuture::new(Operation::Read { fd, buf: buf.as_mut_ptr() as usize, len: buf.len(), offset: 0 });
    assert_eq!(future.state(), FutureState::Init);
}

#[test]
fn test_high_level_file_write() {
    let _torus = Torus::new(256, MockBackend::new()).unwrap();
    let data = b"hello world";
    let fd = 42;
    let future = OperationFuture::new(Operation::Write { fd, buf: data.as_ptr() as usize, len: data.len(), offset: 0 });
    assert_eq!(future.state(), FutureState::Init);
}

#[test]
fn test_high_level_socket_recv() {
    let _torus = Torus::new(256, MockBackend::new()).unwrap();
    let mut buf = vec![0u8; 1024];
    let fd = 42;
    let future = OperationFuture::new(Operation::Recv { fd, buf: buf.as_mut_ptr() as usize, len: buf.len() });
    assert_eq!(future.state(), FutureState::Init);
}

#[test]
fn test_high_level_socket_send() {
    let _torus = Torus::new(256, MockBackend::new()).unwrap();
    let data = b"hello server";
    let fd = 42;
    let future = OperationFuture::new(Operation::Send { fd, buf: data.as_ptr() as usize, len: data.len() });
    assert_eq!(future.state(), FutureState::Init);
}

#[test]
fn test_high_level_socket_close() {
    let _torus = Torus::new(256, MockBackend::new()).unwrap();
    let fd = 42;
    let future = OperationFuture::new(Operation::Close { fd });
    assert_eq!(future.state(), FutureState::Init);
}

#[test]
fn test_raw_api_direct_pointer() {
    let mut torus = Torus::new(256, MockBackend::new()).unwrap();
    let mut raw = torus.raw();
    let buf = vec![0u8; 1024];
    let fd = 42;
    let result = raw.submit_write(fd, buf.as_ptr() as usize, buf.len(), 0);
    assert!(result.is_ok());
}

#[test]
fn test_raw_api_batch_operations() {
    let mut torus = Torus::new(256, MockBackend::new()).unwrap();
    let mut raw = torus.raw();
    let buf1 = vec![1u8; 512];
    let buf2 = vec![2u8; 512];
    raw.submit_write(1, buf1.as_ptr() as usize, buf1.len(), 0).unwrap();
    raw.submit_write(2, buf2.as_ptr() as usize, buf2.len(), 0).unwrap();
    let mut results = Vec::new();
    raw.reap(&mut results).unwrap();
    assert_eq!(results.len(), 2);
}

#[test]
fn test_in_flight_starts_at_zero() {
    let backend = torus::iocp::IocpQueue::new();
    assert_eq!(backend.in_flight(), 0);
}
