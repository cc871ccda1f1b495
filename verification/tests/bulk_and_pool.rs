use usbd::bulk::{BulkIn, BulkOut, EpOutState};
use usbd::fault::Fatal;
use usbd::packet::Packet;
use usbd::pool::PacketPool;

// ---------------------------------------------------------------------
// Bulk OUT: both interleavings converge.
// ---------------------------------------------------------------------

#[test]
fn bulk_out_data_before_read() {
    // hardware signals data before the application supplies a buffer
    let mut ep = BulkOut::new();
    let mut pool = PacketPool::new(3);
    let mut packet = Packet::new(&mut pool).unwrap();

    let started = ep.on_epdata(12).unwrap();
    assert_eq!(started, None); // no buffer yet: no DMA
    assert_eq!(ep.handshake_state(), EpOutState::DataReady);

    let start = ep.read(&mut packet, 12).unwrap();
    assert!(!start.needs_len);
    assert_eq!(start.start_dma, Some(12)); // the one DMA start
    assert_eq!(ep.handshake_state(), EpOutState::TransferInProgress);
    assert!(!ep.poll_done());

    ep.on_endepout().unwrap();
    assert_eq!(ep.handshake_state(), EpOutState::Idle);
    assert!(ep.poll_done());

    ep.read_finish(&mut packet, start.needs_len);
    assert_eq!(packet.len(), 12);
}

#[test]
fn bulk_out_read_before_data() {
    // the application supplies a buffer before data arrives
    let mut ep = BulkOut::new();
    let mut pool = PacketPool::new(3);
    let mut packet = Packet::new(&mut pool).unwrap();

    let start = ep.read(&mut packet, 0).unwrap();
    assert!(start.needs_len);
    assert_eq!(start.start_dma, None);
    assert_eq!(ep.handshake_state(), EpOutState::BufferReady);
    assert!(!ep.poll_done());

    let started = ep.on_epdata(23).unwrap();
    assert_eq!(started, Some(23)); // the one DMA start
    assert_eq!(ep.handshake_state(), EpOutState::TransferInProgress);

    ep.on_endepout().unwrap();
    assert!(ep.poll_done());

    ep.read_finish(&mut packet, start.needs_len);
    assert_eq!(packet.len(), 23);
}

#[test]
fn bulk_out_second_read_is_fatal() {
    let mut ep = BulkOut::new();
    let mut pool = PacketPool::new(3);
    let mut packet = Packet::new(&mut pool).unwrap();

    ep.read(&mut packet, 0).unwrap();
    let mut second = Packet::new(&mut pool).unwrap();
    assert_eq!(ep.read(&mut second, 0), Err(Fatal::Unreachable));
}

#[test]
fn bulk_out_unexpected_events_are_fatal() {
    let mut ep = BulkOut::new();
    // completion without a running transfer
    assert_eq!(ep.on_endepout(), Err(Fatal::Unreachable));

    // a second data signal before the first was picked up
    ep.on_epdata(5).unwrap();
    assert_eq!(ep.on_epdata(5), Err(Fatal::Unreachable));
}

// ---------------------------------------------------------------------
// Bulk IN: single outstanding transfer.
// ---------------------------------------------------------------------

#[test]
fn bulk_in_write_suspends_while_busy() {
    let mut ep = BulkIn::new();
    let mut pool = PacketPool::new(3);

    let mut first = Packet::new(&mut pool).unwrap();
    first.copy_from_slice(&[1, 2, 3]);
    let started = match ep.write(first, true) {
        Ok(s) => s,
        Err(_) => panic!("an idle endpoint must accept the transfer"),
    };
    assert_eq!(started.maxcnt, 3);
    assert!(ep.is_busy());

    // a second write before the completion event comes back unchanged
    let mut second = Packet::new(&mut pool).unwrap();
    second.copy_from_slice(&[9, 9]);
    let held = match ep.write(second, true) {
        Err(p) => p,
        Ok(_) => panic!("second transfer started while the first was outstanding"),
    };
    assert_eq!(held.len(), 2);
    assert!(ep.is_busy());

    // the completion event clears the busy flag
    ep.on_endepin().unwrap();
    assert!(!ep.is_busy());
    assert!(ep.write(held, true).is_ok());
}

#[test]
fn bulk_in_write_waits_for_endpoint_enable() {
    let mut ep = BulkIn::new();
    let mut pool = PacketPool::new(3);
    let packet = Packet::new(&mut pool).unwrap();

    let held = match ep.write(packet, false) {
        Err(p) => p,
        Ok(_) => panic!("transfer started on a disabled endpoint"),
    };
    assert!(!ep.is_busy());
    assert!(ep.write(held, true).is_ok());
}

#[test]
fn bulk_in_spurious_completion_is_fatal() {
    let mut ep = BulkIn::new();
    assert_eq!(ep.on_endepin(), Err(Fatal::Unreachable));
}

// ---------------------------------------------------------------------
// Packet pool.
// ---------------------------------------------------------------------

#[test]
fn pool_alloc_release_cycles_restore_the_free_count() {
    let mut pool = PacketPool::new(3);

    for _round in 0..4 {
        let a = pool.allocate().unwrap();
        let b = pool.allocate().unwrap();
        let c = pool.allocate().unwrap();
        assert!(pool.allocate().is_none()); // exhausted: a caller would suspend
        pool.release(a);
        pool.release(b);
        pool.release(c);
    }
    // after every balanced round all three buffers are free again
    let a = pool.allocate().unwrap();
    let b = pool.allocate().unwrap();
    let c = pool.allocate().unwrap();
    assert!(pool.allocate().is_none());
    pool.release(a);
    pool.release(b);
    pool.release(c);
}

#[test]
fn pool_hands_out_empty_packets() {
    let mut pool = PacketPool::new(2);
    let mut p = pool.allocate().unwrap();
    p.copy_from_slice(&[1, 2, 3, 4]);
    assert_eq!(p.len(), 4);
    pool.release(p);

    // a recycled buffer comes back zero-length
    let p = pool.allocate().unwrap();
    assert_eq!(p.len(), 0);
    assert_eq!(p.data(), Vec::<u8>::new());
}

// ---------------------------------------------------------------------
// Packets.
// ---------------------------------------------------------------------

#[test]
fn packet_copy_truncates_to_capacity() {
    let mut pool = PacketPool::new(1);
    let mut p = Packet::new(&mut pool).unwrap();

    let long = vec![7u8; 100];
    p.copy_from_slice(&long);
    assert_eq!(p.len(), 64);
    assert_eq!(p.data(), vec![7u8; 64]);
}

#[test]
fn packet_data_matches_what_was_copied() {
    let mut pool = PacketPool::new(1);
    let mut p = Packet::new(&mut pool).unwrap();

    p.copy_from_slice(&[10, 20, 30]);
    assert_eq!(p.len(), 3);
    assert_eq!(p.data(), vec![10, 20, 30]);
}

#[test]
fn packet_set_len_clamps_to_capacity() {
    let mut pool = PacketPool::new(1);
    let mut p = Packet::new(&mut pool).unwrap();

    p.set_len(200);
    assert_eq!(p.len(), 64);
    p.set_len(5);
    assert_eq!(p.len(), 5);
}

#[test]
fn packet_set_len_keeps_the_data() {
    let mut pool = PacketPool::new(1);
    let mut p = Packet::new(&mut pool).unwrap();

    p.copy_from_slice(&[1, 2, 3, 4]);
    p.set_len(2);
    assert_eq!(p.data(), vec![1, 2]);
    // growing again exposes the untouched buffer bytes
    p.set_len(4);
    assert_eq!(p.data(), vec![1, 2, 3, 4]);
}
