use quincy::addr::IpAddress;
use quincy::error::{NetworkError, QuincyError};
use quincy::packet::Packet;

fn reason_of(r: Result<IpAddress, QuincyError>) -> String {
    match r {
        Err(QuincyError::Network(NetworkError::PacketError { reason })) => reason,
        other => panic!("expected a packet error, got {other:?}"),
    }
}

#[test]
fn ipv4_destination_is_read_from_header() {
    let mut data = vec![0u8; 20];
    data[0] = 0x45;
    data[16..20].copy_from_slice(&[203, 0, 113, 7]);
    let packet = Packet::new(bytes::Bytes::from(data));
    assert_eq!(packet.destination().unwrap(), IpAddress::V4([203, 0, 113, 7]));
}

#[test]
fn ipv4_destination_ignores_trailing_payload() {
    let mut data = vec![0u8; 60];
    data[0] = 0x45;
    data[16..20].copy_from_slice(&[10, 1, 2, 3]);
    data[20] = 99;
    let packet = Packet::from_vec(data);
    assert_eq!(packet.destination().unwrap(), IpAddress::V4([10, 1, 2, 3]));
}

#[test]
fn short_ipv4_packet_is_rejected() {
    let mut data = vec![0u8; 10];
    data[0] = 0x45;
    let packet = Packet::from_vec(data);
    assert_eq!(reason_of(packet.destination()), "Packet is too short for IPv4 header");
}

#[test]
fn ipv4_packet_of_nineteen_bytes_is_rejected() {
    let mut data = vec![0u8; 19];
    data[0] = 0x40;
    let packet = Packet::from_vec(data);
    assert_eq!(reason_of(packet.destination()), "Packet is too short for IPv4 header");
}

#[test]
fn empty_packet_is_rejected() {
    let packet = Packet::new(bytes::Bytes::new());
    assert_eq!(reason_of(packet.destination()), "Packet is empty");
}

#[test]
fn unsupported_version_is_named() {
    let mut data = vec![0u8; 40];
    data[0] = 0x50;
    let packet = Packet::from_vec(data);
    assert_eq!(reason_of(packet.destination()), "Unsupported IP version: 5");
}

#[test]
fn version_fifteen_is_named_with_two_digits() {
    let packet = Packet::from_vec(vec![0xF0, 1, 2]);
    assert_eq!(reason_of(packet.destination()), "Unsupported IP version: 15");
}

#[test]
fn ipv6_destination_is_read_from_header() {
    let mut data = vec![0u8; 40];
    data[0] = 0x60;
    let dest: [u8; 16] = [0x20, 0x01, 0x0d, 0xb8, 0, 0, 0, 0, 0, 0, 0, 0, 0, 0, 0, 1];
    data[24..40].copy_from_slice(&dest);
    let packet = Packet::from_vec(data);
    assert_eq!(packet.destination().unwrap(), IpAddress::V6(dest));
}

#[test]
fn short_ipv6_packet_is_rejected() {
    let mut data = vec![0u8; 39];
    data[0] = 0x60;
    let packet = Packet::from_vec(data);
    assert_eq!(reason_of(packet.destination()), "Packet is too short for IPv6 header");
}

#[test]
fn packet_bytes_round_trip() {
    let bytes = bytes::Bytes::from(vec![1u8, 2, 3]);
    let packet: Packet = bytes.clone().into();
    assert_eq!(packet.len(), 3);
    assert_eq!(packet.byte_at(2), 3);
    let back: bytes::Bytes = packet.into();
    assert_eq!(back, bytes);
}

#[test]
fn packet_from_vec_keeps_bytes() {
    let packet = Packet::from_vec(vec![9u8, 8, 7, 6]);
    assert_eq!(packet.len(), 4);
    assert_eq!(packet.byte_at(0), 9);
    assert_eq!(&packet.data[..], &[9u8, 8, 7, 6]);
    let copy = packet.clone();
    assert_eq!(copy.data, packet.data);
}
