use quincy::addr::{IpAddress, IpNetwork};
use quincy::error::{InterfaceError, QuincyError};
use quincy::interface::{
    batch_received_count, batch_size, device_settings, offload_batch_size, offload_frames,
    received_packet, BatchReceive, Delivery, Interface, LinkState, PACKET_CHANNEL_SIZE,
};
use quincy::packet::Packet;
use quincy::queue::PacketQueue;

fn iface(mtu: u16) -> Interface {
    let address = IpNetwork::new(IpAddress::V4([10, 0, 0, 2]), 24).unwrap();
    Interface::new(address, mtu, Some(IpAddress::V4([10, 0, 0, 1])), Some("tun0".to_string()))
}

fn packet(n: u8) -> Packet {
    Packet::from_vec(vec![0x45, n, n.wrapping_mul(3), 0xAA])
}

fn io_operation<T: std::fmt::Debug>(r: Result<T, QuincyError>) -> String {
    match r {
        Err(QuincyError::Interface(InterfaceError::IoError { operation })) => operation,
        other => panic!("expected an I/O error, got {other:?}"),
    }
}

fn config_reason<T: std::fmt::Debug>(r: Result<T, QuincyError>) -> String {
    match r {
        Err(QuincyError::Interface(InterfaceError::ConfigurationFailed { reason })) => reason,
        other => panic!("expected a configuration error, got {other:?}"),
    }
}

/// Carries what the writer loop takes to the device straight back in, as a
/// loopback device would.
fn loop_back(i: &mut Interface, mtu: u16) {
    while let Some(batch) = i.next_outbound(batch_size(mtu)) {
        if batch.is_empty() {
            break;
        }
        for p in batch {
            assert!(matches!(i.deliver(p), Delivery::Queued));
        }
    }
}

#[test]
fn loopback_keeps_order_and_bytes() {
    let mtu = 1400;
    let mut i = iface(mtu);
    let sent: Vec<Packet> = (0..120u8).map(packet).collect();
    let rest = i.write_packets(sent.clone()).unwrap();
    assert!(rest.is_empty());
    loop_back(&mut i, mtu);
    let mut got: Vec<Packet> = Vec::new();
    while let Some(batch) = i.read_packets().unwrap() {
        assert!(batch.len() <= batch_size(mtu));
        got.extend(batch);
    }
    assert_eq!(got.len(), sent.len());
    for (a, b) in got.iter().zip(sent.iter()) {
        assert_eq!(a.data, b.data);
    }
}

#[test]
fn single_packet_loopback() {
    let mut i = iface(1500);
    assert!(i.write_packet(packet(7)).unwrap().is_none());
    loop_back(&mut i, 1500);
    let p = i.read_packet().unwrap().unwrap();
    assert_eq!(&p.data[..], &[0x45, 7, 21, 0xAA]);
    assert!(i.read_packet().unwrap().is_none());
}

#[test]
fn full_queue_hands_packets_back() {
    let mut q = PacketQueue::new(3);
    for n in 0..3u8 {
        assert!(q.push(packet(n)).is_none());
    }
    assert!(q.is_full());
    let back = q.push(packet(9)).expect("no room");
    assert_eq!(back.data, packet(9).data);
    assert_eq!(q.len(), 3);
    let drained = q.pop_many(10);
    let firsts: Vec<u8> = drained.iter().map(|p| p.byte_at(1)).collect();
    assert_eq!(firsts, vec![0, 1, 2]);
    assert!(q.pop().is_none());
}

#[test]
fn queue_pops_oldest_first() {
    let mut q = PacketQueue::new(8);
    assert_eq!(q.capacity(), 8);
    q.push(packet(1));
    q.push(packet(2));
    assert_eq!(q.pop().unwrap().byte_at(1), 1);
    assert_eq!(q.pop_many(0).len(), 0);
    assert_eq!(q.pop_many(5).len(), 1);
}

#[test]
fn reads_and_writes_fail_after_down() {
    let mut i = iface(1400);
    i.write_packet(packet(1)).unwrap();
    i.deliver(packet(2));
    i.down();
    assert_eq!(i.state(), LinkState::Down);
    assert_eq!(io_operation(i.read_packet()), "failed to receive packet from reader channel");
    assert_eq!(io_operation(i.read_packets()), "failed to receive packets from reader channel");
    assert_eq!(io_operation(i.write_packet(packet(3))), "failed to send packet to writer channel");
    assert_eq!(io_operation(i.write_packets(vec![packet(4)])), "failed to send packet to writer channel");
    assert!(i.next_outbound(10).is_none());
    assert!(matches!(i.deliver(packet(5)), Delivery::Stop));
    assert_eq!(i.state(), LinkState::Down);
}

#[test]
fn ended_loops_end_reads_and_writes() {
    let mut i = iface(1400);
    i.deliver(packet(1));
    i.reader_stopped();
    assert!(i.read_packet().unwrap().is_some());
    assert_eq!(io_operation(i.read_packet()), "failed to receive packet from reader channel");
    i.writer_stopped();
    assert_eq!(io_operation(i.write_packet(packet(2))), "failed to send packet to writer channel");
}

#[test]
fn nothing_received_yet_is_not_an_error() {
    let mut i = iface(1400);
    assert!(i.read_packet().unwrap().is_none());
    assert!(i.read_packets().unwrap().is_none());
    assert_eq!(i.next_outbound(4).unwrap().len(), 0);
}

#[test]
fn batch_sizes() {
    assert_eq!(batch_size(1400), 46);
    assert_eq!(batch_size(1500), 43);
    assert_eq!(batch_size(65535), 1);
    assert_eq!(offload_batch_size(1400, 128), 46);
    assert_eq!(offload_batch_size(200, 128), 128);
    assert_eq!(PACKET_CHANNEL_SIZE, 1024 * 1024);
}

#[test]
fn reader_takes_partial_batch_as_full() {
    assert_eq!(batch_received_count(BatchReceive::Received(5), 46), Some(5));
    assert_eq!(batch_received_count(BatchReceive::WouldBlockPartial, 46), Some(46));
    assert_eq!(batch_received_count(BatchReceive::Failed, 46), None);
}

#[test]
fn received_buffer_is_trimmed() {
    let p = received_packet(vec![1, 2, 3, 4, 5, 6], 4);
    assert_eq!(&p.data[..], &[1, 2, 3, 4]);
    assert_eq!(received_packet(vec![1, 2], 0).len(), 0);
}

#[test]
fn offload_frames_prepend_zero_headers() {
    let frames = offload_frames(&vec![Packet::from_vec(vec![7, 8]), Packet::from_vec(vec![9])], 3);
    assert_eq!(frames, vec![vec![0, 0, 0, 7, 8], vec![0, 0, 0, 9]]);
    assert_eq!(offload_frames(&vec![Packet::from_vec(vec![5])], 0), vec![vec![5]]);
}

#[test]
fn ipv4_device_settings() {
    let address = IpNetwork::new(IpAddress::V4([10, 0, 0, 2]), 24).unwrap();
    let s = device_settings(&address, Some(IpAddress::V4([10, 0, 0, 1])), true);
    assert_eq!(s.address, IpAddress::V4([10, 0, 0, 2]));
    assert_eq!(s.netmask, IpAddress::V4([255, 255, 255, 0]));
    assert_eq!(s.destination, Some(IpAddress::V4([10, 0, 0, 1])));
    let s = device_settings(&address, Some(IpAddress::V4([10, 0, 0, 1])), false);
    assert_eq!(s.destination, None);
    let s = device_settings(&address, Some(IpAddress::V6([0; 16])), true);
    assert_eq!(s.destination, None);
}

#[test]
fn ipv6_device_settings() {
    let mut a = [0u8; 16];
    a[0] = 0xfd;
    a[15] = 2;
    let address = IpNetwork::new(IpAddress::V6(a), 64).unwrap();
    let s = device_settings(&address, None, true);
    let mut mask = [0u8; 16];
    mask[..8].copy_from_slice(&[0xff; 8]);
    assert_eq!(s.netmask, IpAddress::V6(mask));
    assert_eq!(s.destination, None);
}

#[test]
fn netmasks_at_the_edges() {
    let n = IpNetwork::new(IpAddress::V4([192, 168, 1, 1]), 0).unwrap();
    assert_eq!(n.netmask(), IpAddress::V4([0, 0, 0, 0]));
    let n = IpNetwork::new(IpAddress::V4([192, 168, 1, 1]), 32).unwrap();
    assert_eq!(n.netmask(), IpAddress::V4([255, 255, 255, 255]));
    let n = IpNetwork::new(IpAddress::V4([192, 168, 1, 1]), 20).unwrap();
    assert_eq!(n.netmask(), IpAddress::V4([255, 255, 240, 0]));
    assert!(IpNetwork::new(IpAddress::V4([1, 2, 3, 4]), 33).is_none());
    assert!(IpNetwork::new(IpAddress::V6([0; 16]), 128).is_some());
    assert!(IpNetwork::new(IpAddress::V6([0; 16]), 129).is_none());
    assert_eq!(n.prefix_len(), 20);
    assert_eq!(n.addr(), IpAddress::V4([192, 168, 1, 1]));
}

#[test]
fn route_and_dns_targets() {
    let i = iface(1400);
    let (g, name) = i.route_target().unwrap();
    assert_eq!(g, IpAddress::V4([10, 0, 0, 1]));
    assert_eq!(name, "tun0");
    assert_eq!(i.dns_target().unwrap(), "tun0");
    assert!(i.cleanup_routes(&[]).is_ok());
    assert!(i.cleanup_dns(&[]).is_ok());
    assert_eq!(i.mtu(), 1400);
    assert_eq!(i.name(), Some("tun0".to_string()));

    let address = IpNetwork::new(IpAddress::V4([10, 0, 0, 2]), 24).unwrap();
    let no_gateway = Interface::new(address, 1400, None, Some("tun1".to_string()));
    assert_eq!(config_reason(no_gateway.route_target()), "Missing gateway address on client");
    let no_name = Interface::new(address, 1400, Some(IpAddress::V4([10, 0, 0, 1])), None);
    assert_eq!(config_reason(no_name.route_target()), "Missing interface name on client");
    assert_eq!(
        config_reason(no_name.dns_target()),
        "attempted to configure DNS for interface without name"
    );
}
