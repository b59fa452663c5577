//! Tests of the hardware bypass layer.

use torus::hw::cuda::CUresult;
use torus::hw::dma_pool::{BufferDesc, DmaPoolBuilder, GpuDmaPool, PoolStats, ZeroCopyDmaPool};
use torus::hw::dpdk::{EthConf, Mempool};
use torus::hw::gpu_direct::{DmaEngine, DmaEntry, GpuBuffer, GpuDirect, TransferDirection};
use torus::hw::nvme_gpu::{CompletionTracker, GpuDirectNvme, NvmeDevice, NvmePassthroughCmd, PendingOp, TransferCompletion};
use torus::hw::spdk::{DmaPool, NvmeCmd, SpdkNvmeCpl};
use torus::hw::xdp::{XdpProgram, XdpSocket, XdpUmem};
use torus::hw::HwError;

#[test]
fn test_spdk_nvme_cmd_size() {
    let cmd = NvmeCmd::new();
    assert_eq!(cmd.opcode, 0);
    assert_eq!(cmd.flags, 0);
}

#[test]
fn test_spdk_nvme_cmd_read() {
    let cmd = NvmeCmd::read(100, 8, 0x1000, 0x2000, 1);
    assert_eq!(cmd.opcode, 0x02);
    assert_eq!(cmd.ns_id, 1);
    assert_eq!(cmd.cdw12, 7);
    assert_eq!(cmd.cdw14, 0x1000);
    assert_eq!(cmd.cdw15, 0x2000);
}

#[test]
fn test_spdk_nvme_cmd_write() {
    let cmd = NvmeCmd::write(200, 4, 0x3000, 0x4000, 1);
    assert_eq!(cmd.opcode, 0x01);
    assert_eq!(cmd.cdw12, 3);
}

#[test]
fn spdk_commands_split_the_lba() {
    let cmd = NvmeCmd::read(0x1_2345_6789, 1, 0, 0, 2);
    assert_eq!((cmd.cdw10, cmd.cdw11, cmd.cdw12), (0x2345_6789, 1, 0));
    let cmd = NvmeCmd::deallocate(0x5_0000_0001, 16, 3);
    assert_eq!((cmd.opcode, cmd.cdw10, cmd.cdw11, cmd.cdw12, cmd.cdw13), (0x09, 15, 1, 1, 5));
    let cmd = NvmeCmd::flush(4);
    assert_eq!((cmd.opcode, cmd.ns_id), (0x0C, 4));
    let cpl = SpdkNvmeCpl { cdw0: 0, sc: 0x81, sc_bit: 0, sct: 0x2, phase: 1, cdw2: 0, cdw3: 0 };
    assert!(!cpl.is_success());
    assert_eq!(cpl.status_code(), 0x281);
    assert!(SpdkNvmeCpl::default().is_success());
}

#[test]
fn test_dpdk_mempool_not_available() {
    let result = Mempool::new("test", 1024, 256, 0, 2048);
    assert!(result.is_err());
    match result {
        Err(HwError::NotAvailable(_)) => {}
        _ => panic!("expected NotAvailable error"),
    }
}

#[test]
fn dpdk_port_configuration_defaults() {
    let conf = EthConf::default();
    assert_eq!((conf.link_speed, conf.max_rx_pkt_len, conf.nb_rx_queues, conf.nb_tx_queues), (0, 1518, 1, 1));
}

#[test]
fn test_gpu_direct_buffer() {
    let buf = GpuBuffer::from_raw(0, 0x10000000, 1024 * 1024);
    assert_eq!(buf.device_id, 0);
    assert_eq!(buf.dev_ptr, 0x10000000);
    assert_eq!(buf.size, 1024 * 1024);
    assert!(buf.can_fit(512));
    assert!(buf.can_fit(1024 * 1024));
    assert!(!buf.can_fit(1024 * 1024 + 1));
}

#[test]
fn test_dma_entry() {
    let entry = DmaEntry { src: 0x1000, dst: 0x2000, len: 4096, flags: 0 };
    assert_eq!(entry.src, 0x1000);
    assert_eq!(entry.dst, 0x2000);
    assert_eq!(entry.len, 4096);
}

#[test]
fn test_transfer_direction_display() {
    assert_eq!(TransferDirection::NvmeToGpu.display_string(), "NVMe → GPU");
    assert_eq!(TransferDirection::GpuToNvme.display_string(), "GPU → NVMe");
    assert_eq!(TransferDirection::GpuToGpu.display_string(), "GPU → GPU");
}

#[test]
fn dma_engine_counts_issued_transfers() {
    let mut engine = DmaEngine::from_stream(0, 0xabc, 2);
    assert!(engine.has_capacity());
    assert_eq!(engine.active_count(), 0);
    let copy = engine.submit_d2d(0x10, 0x20, 64).unwrap();
    assert_eq!((copy.src, copy.dst, copy.len, copy.stream), (0x10, 0x20, 64, 0xabc));
    assert_eq!(engine.issued(copy.kind, Ok(())).unwrap(), 1);
    assert_eq!(engine.issued(copy.kind, Ok(())).unwrap(), 2);
    assert!(!engine.has_capacity());
    match engine.submit_h2d(0x20, 0x30, 1) {
        Err(HwError::QueueFull) => {}
        _ => panic!("expected QueueFull"),
    }
    engine.cancel_all(Ok(())).unwrap();
    assert_eq!(engine.active_count(), 0);
    match engine.issued(copy.kind, Err(HwError::Timeout)) {
        Err(HwError::InitFailed(m)) => assert_eq!(m, "cuMemcpyDtoDAsync: operation timed out"),
        _ => panic!("expected InitFailed"),
    }
    assert_eq!(engine.active_count(), 0);
}

#[test]
fn gpu_direct_routes_to_first_free_engine() {
    let mut gd = GpuDirect::with_streams(0, &vec![0x1, 0x2]);
    assert_eq!(gd.engine_count(), 2);
    assert_eq!(gd.device_id(), 0);
    let stats = gd.stats();
    assert_eq!((stats.total_engines, stats.active_transfers), (2, 0));

    let buf = GpuBuffer::from_raw(0, 0x10000000, 1024);
    let t = gd.nvme_to_gpu(3, 1, &buf, 512, 512).unwrap();
    assert_eq!(t.engine, 0);
    assert_eq!((t.copy.src, t.copy.dst, t.copy.len, t.copy.stream), (3 * 512, 0x10000200, 512, 0x1));
    assert_eq!(gd.start_transfer(&t, Ok(())).unwrap(), 1);
    assert_eq!(gd.stats().active_transfers, 1);

    match gd.nvme_to_gpu(0, 1, &buf, 512, 1024) {
        Err(HwError::InvalidParam(m)) => assert_eq!(m, "transfer exceeds GPU buffer size"),
        _ => panic!("expected InvalidParam error"),
    }
    let other = GpuBuffer::from_raw(0, 0x20000000, 16);
    match gd.gpu_to_gpu(&buf, 0, &other, 8, 16) {
        Err(HwError::InvalidParam(m)) => assert_eq!(m, "destination transfer exceeds buffer size"),
        _ => panic!("expected InvalidParam error"),
    }
    let t = gd.gpu_to_nvme(&buf, 0, 16, 2, 1).unwrap();
    assert_eq!((t.copy.src, t.copy.dst), (0x10000000, 1024));
    assert_eq!(buf.copy_from_host(1024, Ok(())).is_ok(), true);
    match buf.copy_from_host(1025, Ok(())) {
        Err(HwError::InvalidParam(m)) => assert_eq!(m, "transfer exceeds buffer size"),
        _ => panic!("expected InvalidParam error"),
    }
}

#[test]
fn gpu_buffer_allocation_reports_the_failed_call() {
    let b = GpuBuffer::allocate(1, 4096, Ok(()), Ok(0xdead0000)).unwrap();
    assert_eq!((b.device_id, b.dev_ptr, b.size, b.pinned, b.host_ptr), (1, 0xdead0000, 4096, false, None));
    match GpuBuffer::allocate(1, 4096, Err(HwError::QueueFull), Ok(0xdead0000)) {
        Err(HwError::InitFailed(m)) => assert_eq!(m, "CUDA init: hardware queue is full"),
        _ => panic!("expected InitFailed"),
    }
    match GpuBuffer::allocate(1, 4096, Ok(()), Err(HwError::OutOfMemory)) {
        Err(HwError::InitFailed(m)) => assert_eq!(m, "cuMemAlloc: memory allocation failed"),
        _ => panic!("expected InitFailed"),
    }
    let p = GpuBuffer::alloc_pinned(2, 64, Ok(()), Ok(0x1000), Ok(0x7000)).unwrap();
    assert_eq!((p.dev_ptr, p.host_ptr, p.pinned, p.size), (0x1000, Some(0x7000), true, 64));
    match GpuBuffer::alloc_pinned(2, 64, Ok(()), Ok(0x1000), Err(HwError::OutOfMemory)) {
        Err(HwError::InitFailed(m)) => assert_eq!(m, "cuMemHostAlloc: memory allocation failed"),
        _ => panic!("expected InitFailed"),
    }
}

#[test]
fn gpu_host_copies_check_size_then_driver() {
    let mut gd = GpuDirect::with_streams(0, &vec![0x1, 0x2]);
    let buf = GpuBuffer::from_raw(0, 0x10000000, 256);
    assert!(gd.host_to_gpu(&buf, 256, Ok(())).is_ok());
    match gd.host_to_gpu(&buf, 256, Err(HwError::Timeout)) {
        Err(HwError::InitFailed(m)) => assert_eq!(m, "cuMemcpyHtoD: operation timed out"),
        _ => panic!("expected InitFailed"),
    }
    match gd.gpu_to_host(&buf, 257, Err(HwError::Timeout)) {
        Err(HwError::InvalidParam(m)) => assert_eq!(m, "transfer exceeds buffer size"),
        _ => panic!("expected InvalidParam"),
    }
    match buf.copy_to_host(16, Err(HwError::Timeout)) {
        Err(HwError::InitFailed(m)) => assert_eq!(m, "cuMemcpyDtoH: operation timed out"),
        _ => panic!("expected InitFailed"),
    }
    let t = gd.nvme_to_gpu(0, 1, &buf, 0, 16).unwrap();
    gd.start_transfer(&t, Ok(())).unwrap();
    assert_eq!(gd.stats().active_transfers, 1);
    match gd.sync_all(&vec![Err(HwError::Timeout)]) {
        Err(_) => {}
        Ok(()) => panic!("expected the failure"),
    }
    assert_eq!(gd.stats().active_transfers, 1);
    assert!(gd.sync_all(&vec![Ok(()), Ok(())]).is_ok());
    assert_eq!(gd.stats().active_transfers, 0);
    match gd.sync_all(&vec![Err(HwError::Timeout)]) {
        Err(HwError::InitFailed(m)) => assert_eq!(m, "cuStreamSynchronize: operation timed out"),
        _ => panic!("expected InitFailed"),
    }
}

#[test]
fn test_dma_pool() {
    let mut buf = vec![0u8; 4096 * 8];
    let base = buf.as_mut_ptr() as usize;
    let mut pool = DmaPool::new(base, 4096 * 8, 4096, 8);

    assert_eq!(pool.available(), 8);
    assert_eq!(pool.total(), 8);

    let b1 = pool.allocate().unwrap();
    let b2 = pool.allocate().unwrap();
    assert_eq!(pool.available(), 6);
    assert_eq!(b1, base + 7 * 4096);
    assert_eq!(b2, base + 6 * 4096);

    pool.free(b1);
    pool.free(b2);
    assert_eq!(pool.available(), 8);

    // Addresses outside the region or between buffers are ignored.
    pool.free(base + 4096 * 8);
    pool.free(base + 1);
    assert_eq!(pool.available(), 8);
}

#[test]
fn test_nvme_passthrough_cmd() {
    let read_cmd = NvmePassthroughCmd::read(1000, 8, 1);
    assert_eq!(read_cmd.opcode, 0x02);
    assert_eq!(read_cmd.ns_id, 1);
    assert_eq!(read_cmd.cdw12, 7);

    let write_cmd = NvmePassthroughCmd::write(2000, 16, 1);
    assert_eq!(write_cmd.opcode, 0x01);
    assert_eq!(write_cmd.cdw12, 15);

    let high = NvmePassthroughCmd::read(0x3_0000_0010, 1, 1);
    assert_eq!((high.cdw14, high.cdw15), (0x10, 3));
}

#[test]
fn test_completion_tracker() {
    let mut tracker = CompletionTracker::new();
    let id = tracker.next_id();
    assert_eq!(id, 1);

    tracker.insert(
        id,
        PendingOp {
            pool_index: 0,
            gpu_ptr: 0x1000,
            gpu_offset: 0,
            num_blocks: 8,
            is_write: false,
            pool_buf_addr: 0x2000,
            block_size: 512,
        },
    );

    assert!(tracker.remove(id).is_some());
    assert!(tracker.remove(id).is_none());
}

#[test]
fn gpu_direct_nvme_read_then_complete() {
    let pool = ZeroCopyDmaPool::from_region(0x100000, 65536, 16384, 4, 9);
    let nvme = NvmeDevice::from_fd(20, "/dev/nvme0n1", 1);
    assert_eq!((nvme.block_size(), nvme.total_blocks(), nvme.name()), (512, 0, "/dev/nvme0n1"));
    let mut driver = GpuDirectNvme::from_parts(nvme, pool, 0x77, 9);
    let gpu = GpuBuffer::from_raw(0, 0x9000_0000, 8192);
    let sqe = driver.read_to_gpu(10, 8, &gpu, 4096).unwrap();
    assert_eq!((sqe.opcode, sqe.flags, sqe.fd), (28, 1, 20));
    assert_eq!((sqe.off_addr2, sqe.addr_splice_off_in, sqe.len, sqe.user_data, sqe.buf_group), (5120, 0x100000, 4096, 1, 0));
    assert_eq!(driver.pending_count(), 1);
    assert_eq!(driver.dma_pool().available(), 3);
    match driver.read_to_gpu(10, 9, &gpu, 4096) {
        Err(HwError::InvalidParam(m)) => assert_eq!(m, "GPU buffer overflow"),
        _ => panic!("expected InvalidParam"),
    }
    match driver.complete_transfer(sqe.user_data, 4096).unwrap() {
        TransferCompletion::CopyToGpu(c) => {
            assert_eq!((c.src, c.dst, c.len, c.stream), (0x100000, 0x9000_1000, 4096, 0x77));
        }
        TransferCompletion::Done => panic!("expected a copy"),
    }
    assert_eq!(driver.pending_count(), 0);
    assert_eq!(driver.dma_pool().available(), 4);
    match driver.complete_transfer(42, 0) {
        Err(HwError::InvalidParam(m)) => assert_eq!(m, "unknown transfer ID: 42"),
        _ => panic!("expected InvalidParam"),
    }
    let sqe = driver.read_to_gpu(0, 1, &gpu, 0).unwrap();
    match driver.complete_transfer(sqe.user_data, -5) {
        Err(HwError::InitFailed(m)) => assert_eq!(m, "NVMe I/O failed: errno 5"),
        _ => panic!("expected InitFailed"),
    }
}

#[test]
fn test_zero_copy_dma_pool_builder() {
    let builder = DmaPoolBuilder::new(0).buf_size(8192).capacity(128).use_hugepages();

    assert_eq!(builder.buf_size, 8192);
    assert_eq!(builder.capacity, 128);
    assert!(builder.use_hugepages);
}

#[test]
fn test_pool_builder() {
    let builder = DmaPoolBuilder::new(0).buf_size(8192).capacity(128).use_hugepages();

    assert_eq!(builder.buf_size, 8192);
    assert_eq!(builder.capacity, 128);
    assert!(builder.use_hugepages);
}

#[test]
fn dma_pool_test_buffer_desc_layout() {
    let desc = BufferDesc { index: 0, addr: 0x1000, dma_addr: 0x2000, size: 4096, allocated: false };
    assert_eq!(desc.index, 0);
    assert_eq!(desc.size, 4096);
    assert!(!desc.allocated);
}

#[test]
fn hw_test_test_buffer_desc_layout() {
    let desc = BufferDesc { index: 0, addr: 0x1000, dma_addr: 0x2000, size: 4096, allocated: false };

    assert_eq!(desc.index, 0);
    assert_eq!(desc.addr, 0x1000);
    assert_eq!(desc.dma_addr, 0x2000);
    assert_eq!(desc.size, 4096);
    assert!(!desc.allocated);
}

#[test]
fn dma_pool_test_pool_stats() {
    let mut stats = PoolStats::default();
    assert_eq!(stats.in_flight(), 0);
    assert_eq!(stats.total_allocs(), 0);

    stats.record_alloc();
    assert_eq!(stats.in_flight(), 1);
    assert_eq!(stats.total_allocs(), 1);

    stats.record_dealloc();
    assert_eq!(stats.in_flight(), 0);
}

#[test]
fn hw_test_test_pool_stats() {
    let mut stats = PoolStats::default();
    assert_eq!(stats.in_flight(), 0);
    assert_eq!(stats.total_allocs(), 0);

    stats.record_alloc();
    assert_eq!(stats.in_flight(), 1);
    assert_eq!(stats.total_allocs(), 1);

    stats.record_alloc();
    assert_eq!(stats.in_flight(), 2);
    assert_eq!(stats.peak_in_flight(), 2);

    stats.record_dealloc();
    assert_eq!(stats.in_flight(), 1);
    assert_eq!(stats.peak_in_flight(), 2);

    stats.record_dealloc();
    assert_eq!(stats.in_flight(), 0);
    assert_eq!(stats.peak_in_flight(), 2);
}

#[test]
fn zero_copy_pool_slots() {
    assert_eq!(ZeroCopyDmaPool::region_size_for(4096, 3, 4096).unwrap(), 12288);
    match ZeroCopyDmaPool::region_size_for(3000, 3, 4096) {
        Err(HwError::InvalidParam(m)) => {
            assert_eq!(m, "buf_size must be power of 2 between 4096 and 2097152 bytes")
        }
        _ => panic!("expected InvalidParam"),
    }
    let mut pool = ZeroCopyDmaPool::from_region(0x7000, 16384, 4096, 4, 3);
    assert_eq!((pool.capacity(), pool.buf_size(), pool.available()), (4, 4096, 4));
    assert!(!pool.is_registered());
    let regs = pool.registration_buffers();
    assert_eq!((regs[2].ptr, regs[2].len), (0x7000 + 2 * 4096, 4096));
    match pool.register_outcome(-1) {
        Err(HwError::InitFailed(m)) => assert_eq!(m, "io_uring_register_buffers failed: errno 1"),
        _ => panic!("expected InitFailed"),
    }
    pool.register_outcome(0).unwrap();
    assert!(pool.is_registered());

    let a = pool.allocate().unwrap();
    assert_eq!((a.index(), a.addr(), a.size(), a.registered_index()), (0, 0x7000, 4096, 0));
    // Slot 1 at 0x8000 is the first free slot aligned to 8 KiB.
    let b = pool.alloc_aligned(8192).unwrap();
    assert_eq!(b.index(), 1);
    assert!(pool.alloc_aligned(3).is_none());
    assert_eq!(pool.available(), 2);
    assert_eq!(pool.stats().peak_in_flight(), 2);
    a.free(&mut pool);
    assert_eq!(pool.available(), 3);
    assert_eq!(pool.stats().in_flight(), 1);
    assert_eq!(pool.descriptor(3).unwrap().addr, 0x7000 + 3 * 4096);
    assert!(pool.descriptor(4).is_none());
    pool.unregister_outcome(0).unwrap();
    assert!(!pool.is_registered());
}

#[test]
fn gpu_dma_pool_pairs_buffers() {
    let pool = ZeroCopyDmaPool::from_region(0x7000, 8192, 4096, 2, 3);
    let mut gpool = GpuDmaPool::new(pool, 0);
    let h = gpool.reserve_for_gpu().unwrap();
    let h = gpool.alloc_for_gpu(h, Ok(0xdead0000)).unwrap();
    assert_eq!(gpool.gpu_ptr(h.index()), Some(0xdead0000));
    let h2 = gpool.reserve_for_gpu().unwrap();
    assert_eq!(gpool.pool().available(), 0);
    match gpool.reserve_for_gpu() {
        Err(HwError::QueueFull) => {}
        _ => panic!("expected QueueFull"),
    }
    match gpool.alloc_for_gpu(h2, Err(HwError::OutOfMemory)) {
        Err(HwError::InitFailed(m)) => assert_eq!(m, "cuMemAlloc: memory allocation failed"),
        _ => panic!("expected InitFailed"),
    }
    assert_eq!(gpool.pool().available(), 1);
    assert_eq!(gpool.gpu_ptr(1), None);
}

#[test]
fn xdp_umem_frames() {
    let umem = XdpUmem::new(0x10000, 4096 * 4 + 100);
    assert_eq!(umem.frame_count(), 4);
    assert_eq!(umem.frame_size(), 4096);
    assert_eq!(umem.frame_ptr(3), Some(0x10000 + 3 * 4096));
    assert_eq!(umem.frame_ptr(4), None);
    let mut sock = XdpSocket::from_fd(7).with_rx_ring_size(512).with_tx_ring_size(1024);
    assert_eq!(sock.fd(), 7);
    sock.bind_umem(XdpUmem::with_config(0, 8192, 2048, 0)).unwrap();
    let mut descs = [torus::hw::xdp::XdpDesc::default(); 4];
    assert_eq!(sock.recv(&mut descs).unwrap(), 0);
    assert_eq!(sock.send(&descs).unwrap(), 0);
    let prog = XdpProgram::load(0, 0).unwrap();
    assert_eq!(prog.fd(), -1);
    assert!(prog.attach(1, 0).is_ok());
}

#[test]
fn cuda_result_codes() {
    assert!(CUresult::Success.is_ok());
    assert!(!CUresult::ErrorNoDevice.is_ok());
    assert_eq!(CUresult::ErrorNoDevice.as_str(), "no CUDA device");
    assert_eq!(CUresult::ErrorLaunchFailed.code(), 719);
    assert_eq!(HwError::QueueFull.display_string(), "hardware queue is full");
    assert_eq!(
        HwError::NotAvailable("x".to_string()).display_string(),
        "hardware bypass not available: x"
    );
}

#[test]
fn test_dma_engine_creation() {
    let engine = DmaEngine::from_stream(0, 0x5000, 2);
    assert!(engine.has_capacity());
    assert_eq!(engine.active_count(), 0);
    assert_eq!(engine.engine_id(), 0);
    assert_eq!(engine.stream(), 0x5000);
}

#[test]
fn test_gpu_direct_orchestrator() {
    let gd = GpuDirect::with_streams(0, &vec![0x10, 0x20, 0x30, 0x40]);
    assert_eq!(gd.device_id(), 0);
    assert_eq!(gd.engine_count(), 4);
    let stats = gd.stats();
    assert_eq!(stats.total_engines, 4);
    assert_eq!(stats.active_transfers, 0);
}

#[test]
fn test_gpu_direct_buffer_overflow() {
    let gd = GpuDirect::with_streams(0, &vec![0x10]);
    let buf = GpuBuffer::from_raw(0, 0x10000000, 1024);

    let result = gd.nvme_to_gpu(0, 1, &buf, 512, 1024);
    assert!(result.is_err());
    match result {
        Err(HwError::InvalidParam(_)) => {}
        _ => panic!("expected InvalidParam error"),
    }
}

#[test]
fn test_gpu_direct_nvme_creation() {
    let nvme = NvmeDevice::from_fd(5, "/dev/nvme0n1", 1);
    let pool = ZeroCopyDmaPool::from_region(0x200000, 64 * 64 * 1024, 64 * 1024, 64, 6);
    let driver = GpuDirectNvme::from_parts(nvme, pool, 0x1, 6);
    assert_eq!(driver.pending_count(), 0);
    assert_eq!(driver.nvme().ns_id(), 1);
    assert_eq!(driver.dma_pool().capacity(), 64);
    assert_eq!(driver.stream(), 0x1);
}

#[test]
fn gpu_direct_creation_reports_the_failed_call() {
    let gd = GpuDirect::new(3, 2, Ok(()), Ok(0), Ok(0x77), &vec![Ok(0x10), Ok(0x20)]).unwrap();
    assert_eq!(gd.device_id(), 3);
    assert_eq!(gd.engine_streams(), vec![0x10, 0x20]);
    match GpuDirect::new(3, 2, Err(HwError::Timeout), Ok(0), Ok(0x77), &vec![]) {
        Err(HwError::InitFailed(m)) => assert_eq!(m, "CUDA init failed: operation timed out"),
        _ => panic!("expected InitFailed"),
    }
    match GpuDirect::new(3, 2, Ok(()), Err(HwError::Timeout), Ok(0x77), &vec![]) {
        Err(HwError::InitFailed(m)) => assert_eq!(m, "cuDeviceGet: operation timed out"),
        _ => panic!("expected InitFailed"),
    }
    match GpuDirect::new(3, 2, Ok(()), Ok(0), Ok(0), &vec![]) {
        Err(HwError::InitFailed(m)) => assert_eq!(m, "cuCtxCreate returned null"),
        _ => panic!("expected InitFailed"),
    }
    match GpuDirect::new(3, 2, Ok(()), Ok(0), Ok(0x77), &vec![Ok(0x10), Err(HwError::QueueFull)]) {
        Err(HwError::InitFailed(m)) => assert_eq!(m, "cuStreamCreate: hardware queue is full"),
        _ => panic!("expected InitFailed"),
    }
    let e = DmaEngine::new(4, 8, Ok(0xabc)).unwrap();
    assert_eq!((e.engine_id(), e.stream(), e.active_count()), (4, 0xabc, 0));
    match DmaEngine::new(4, 8, Err(HwError::Timeout)) {
        Err(HwError::InitFailed(m)) => assert_eq!(m, "cuStreamCreate: operation timed out"),
        _ => panic!("expected InitFailed"),
    }
    assert!(e.synchronize(Ok(())).is_ok());
}

#[test]
fn zero_copy_pool_descriptors_show_allocation() {
    let mut pool = ZeroCopyDmaPool::from_region(0x100000, 65536, 16384, 4, 9);
    assert!(!pool.descriptor(0).unwrap().allocated);
    let h = pool.allocate().unwrap();
    let d = pool.descriptor(0).unwrap();
    assert!(d.allocated);
    assert_eq!((d.index, d.addr, d.size), (0, 0x100000, 16384));
    assert_eq!(pool.available() + pool.stats().in_flight() as usize, pool.capacity());
    h.free(&mut pool);
    assert!(!pool.descriptor(0).unwrap().allocated);
    assert_eq!(pool.available() + pool.stats().in_flight() as usize, pool.capacity());
    assert!(pool.descriptor(4).is_none());
}

#[test]
fn gpu_direct_nvme_write_stages_a_copy_then_writes() {
    let pool = ZeroCopyDmaPool::from_region(0x100000, 65536, 16384, 4, 9);
    let nvme = NvmeDevice::from_fd(20, "/dev/nvme0n1", 1);
    let mut driver = GpuDirectNvme::from_parts(nvme, pool, 0x77, 9);
    let gpu = GpuBuffer::from_raw(0, 0x9000_0000, 8192);
    let staged = driver.stage_write_from_gpu(&gpu, 1024, 4).unwrap();
    let c = staged.copy();
    assert_eq!((c.src, c.dst, c.len, c.stream), (0x9000_0400, 0x100000, 2048, 0x77));
    assert_eq!(driver.dma_pool().available(), 3);
    let sqe = driver.write_from_gpu(staged, 6, Ok(())).unwrap();
    assert_eq!((sqe.opcode, sqe.flags, sqe.fd), (29, 1, 20));
    assert_eq!((sqe.off_addr2, sqe.addr_splice_off_in, sqe.len, sqe.user_data, sqe.buf_group), (3072, 0x100000, 2048, 1, 0));
    assert_eq!(driver.pending_count(), 1);
    match driver.complete_transfer(sqe.user_data, 2048).unwrap() {
        TransferCompletion::Done => {}
        TransferCompletion::CopyToGpu(_) => panic!("a write needs no copy"),
    }

    assert_eq!(driver.dma_pool().available(), 4);
    let staged = driver.stage_write_from_gpu(&gpu, 0, 1).unwrap();
    assert_eq!(staged.copy().dst, 0x100000);
    match driver.write_from_gpu(staged, 0, Err(HwError::Timeout)) {
        Err(HwError::InitFailed(m)) => assert_eq!(m, "cuMemcpyDtoHAsync: operation timed out"),
        _ => panic!("expected InitFailed"),
    }
    assert_eq!(driver.dma_pool().available(), 4);
    assert_eq!(driver.pending_count(), 0);
    match driver.stage_write_from_gpu(&gpu, 8000, 1) {
        Err(HwError::InvalidParam(m)) => assert_eq!(m, "GPU buffer overflow"),
        _ => panic!("expected InvalidParam"),
    }
}

#[test]
fn spdk_probe_reports_the_missing_driver() {
    match torus::hw::spdk::Spdk::probe("trtype:PCIe traddr:0000:01:00.0") {
        Err(HwError::NotAvailable(m)) => {
            assert_eq!(m, "SPDK support requires the `spdk` feature and an installed SPDK library")
        }
        _ => panic!("expected NotAvailable"),
    }
}

#[test]
fn unknown_interfaces_are_named_in_the_error() {
    assert_eq!(torus::hw::xdp::ifindex_from_name("eth0", 3).unwrap(), 3);
    match torus::hw::xdp::ifindex_from_name("nope0", 0) {
        Err(HwError::InvalidParam(m)) => assert_eq!(m, "interface 'nope0' not found"),
        _ => panic!("expected InvalidParam"),
    }
}

#[test]
fn dma_pool_available_plus_in_flight_is_capacity() {
    let mut pool = ZeroCopyDmaPool::from_region(0x7000, 16384, 4096, 4, 3);
    assert_eq!(pool.available() + pool.stats().in_flight() as usize, pool.capacity());
    let a = pool.allocate().unwrap();
    let b = pool.alloc_aligned(8192).unwrap();
    assert_eq!((pool.available(), pool.stats().in_flight()), (2, 2));
    a.free(&mut pool);
    assert_eq!(pool.available() + pool.stats().in_flight() as usize, 4);
    b.free(&mut pool);
    assert_eq!((pool.available(), pool.stats().in_flight()), (4, 0));
}

#[test]
fn spdk_pool_hands_out_a_freed_buffer_again() {
    let mut buf = vec![0u8; 4096 * 2];
    let base = buf.as_mut_ptr() as usize;
    let mut pool = DmaPool::new(base, 4096 * 4, 4096, 2);
    let b1 = pool.allocate().unwrap();
    let b2 = pool.allocate().unwrap();
    assert!(pool.allocate().is_none());
    pool.free(b2);
    assert_eq!(pool.allocate(), Some(b2));
    pool.free(b1);
    assert_eq!(pool.allocate(), Some(b1));
}
