use netcore::ethernet::{EthernetAddress, EthernetFrame, Ethertype, ETHERNET_HEADER_LEN};
use netcore::net::FromBuffer;
use std::cmp::Ordering;

fn header(ethertype: [u8; 2]) -> Vec<u8> {
    let mut bytes = vec![0xFF, 0xFF, 0xFF, 0xFF, 0xFF, 0xFF, 0x02, 0x00, 0x00, 0x00, 0x00, 0x01];
    bytes.extend_from_slice(&ethertype);
    bytes
}

#[test]
fn ethertype_0806_is_arp() {
    assert_eq!(EthernetFrame::from_slice(&header([0x08, 0x06])).ethertype, Ethertype::ARP);
    assert_eq!(Ethertype::from_slice(&[0x08, 0x06]), Ethertype::ARP);
}

#[test]
fn ethertype_0800_is_ipv4() {
    assert_eq!(EthernetFrame::from_slice(&header([0x08, 0x00])).ethertype, Ethertype::IPV4);
    assert_eq!(Ethertype::from_slice(&[0x08, 0x00]), Ethertype::IPV4);
}

#[test]
fn unassigned_ethertype_is_taken_for_ipv6() {
    // A value that names no known protocol is classified as IPv6, never as
    // UNKNOWN; 0xFFFF is no exception.
    assert_eq!(EthernetFrame::from_slice(&header([0xFF, 0xFF])).ethertype, Ethertype::IPV6);
    assert_eq!(Ethertype::from_slice(&[0xFF, 0xFF]), Ethertype::IPV6);
    assert_eq!(Ethertype::from_u16(0xFFFF), Ethertype::IPV6);
    assert_eq!(Ethertype::from_u16(0x0000), Ethertype::IPV6);
    assert_eq!(Ethertype::from_u16(0x0801), Ethertype::IPV6);
    assert_eq!(Ethertype::from_u16(0x1234), Ethertype::IPV6);
}

#[test]
fn ethertype_knows_six_values() {
    assert_eq!(Ethertype::from_u16(0x0800), Ethertype::IPV4);
    assert_eq!(Ethertype::from_u16(0x0806), Ethertype::ARP);
    assert_eq!(Ethertype::from_u16(0x0842), Ethertype::WAKE_ON_LAN);
    assert_eq!(Ethertype::from_u16(0x8035), Ethertype::RARP);
    assert_eq!(Ethertype::from_u16(0x8103), Ethertype::SLPP);
    assert_eq!(Ethertype::from_u16(0x86DD), Ethertype::IPV6);
}

#[test]
fn ethertype_is_read_big_endian() {
    assert_eq!(Ethertype::from_slice(&[0x06, 0x08]), Ethertype::IPV6);
    assert_eq!(Ethertype::from_slice(&[0x00, 0x08]), Ethertype::IPV6);
    assert_eq!(Ethertype::from_slice(&[0x08, 0x42]), Ethertype::WAKE_ON_LAN);
    assert_eq!(Ethertype::from_slice(&[0x80, 0x35]), Ethertype::RARP);
    assert_eq!(Ethertype::from_slice(&[0x81, 0x03]), Ethertype::SLPP);
    assert_eq!(Ethertype::from_slice(&[0x86, 0xDD]), Ethertype::IPV6);
}

#[test]
fn ethertype_gives_its_wire_value() {
    assert_eq!(Ethertype::IPV4.to_u16(), 0x0800);
    assert_eq!(Ethertype::ARP.to_u16(), 0x0806);
    assert_eq!(Ethertype::WAKE_ON_LAN.to_u16(), 0x0842);
    assert_eq!(Ethertype::RARP.to_u16(), 0x8035);
    assert_eq!(Ethertype::SLPP.to_u16(), 0x8103);
    assert_eq!(Ethertype::IPV6.to_u16(), 0x86DD);
    assert_eq!(Ethertype::UNKNOWN.to_u16(), 0xFFFF);
}

#[test]
fn no_value_is_classified_as_unknown() {
    for value in 0..=u16::MAX {
        let ethertype = Ethertype::from_u16(value);
        assert_ne!(ethertype, Ethertype::UNKNOWN);
        if ethertype != Ethertype::IPV6 {
            assert_eq!(ethertype.to_u16(), value);
        }
    }
}

#[test]
fn known_ethertypes_survive_their_wire_value() {
    let known = [
        Ethertype::IPV4,
        Ethertype::ARP,
        Ethertype::WAKE_ON_LAN,
        Ethertype::RARP,
        Ethertype::SLPP,
        Ethertype::IPV6,
    ];
    for ethertype in known {
        assert_eq!(Ethertype::from_u16(ethertype.to_u16()), ethertype);
    }
    assert_eq!(Ethertype::from_u16(Ethertype::UNKNOWN.to_u16()), Ethertype::IPV6);
}

#[test]
fn frame_header_decodes_field_by_field() {
    let bytes: Vec<u8> = vec![
        0x01, 0x02, 0x03, 0x04, 0x05, 0x06, // destination
        0x0A, 0x0B, 0x0C, 0x0D, 0x0E, 0x0F, // source
        0x08, 0x06, // protocol type
        0x99, 0x98, // payload
    ];
    let frame = EthernetFrame::from_slice(&bytes);
    assert_eq!(frame.destination.as_bytes(), [0x01, 0x02, 0x03, 0x04, 0x05, 0x06]);
    assert_eq!(frame.source.as_bytes(), [0x0A, 0x0B, 0x0C, 0x0D, 0x0E, 0x0F]);
    assert_eq!(frame.ethertype, Ethertype::ARP);
    assert_eq!(EthernetFrame::from_buffer(&bytes), frame);
    assert_eq!(EthernetFrame::from_slice(&bytes[..14]), frame);
}

#[test]
fn frame_header_reports_fourteen_bytes() {
    let frame = EthernetFrame::from_buffer(&header([0x08, 0x00]));
    assert_eq!(frame.size(), 14);
    assert_eq!(<EthernetFrame as FromBuffer>::wire_len(), 14);
    assert_eq!(ETHERNET_HEADER_LEN, 14);
}

#[test]
fn address_keeps_its_six_bytes() {
    let address = EthernetAddress::from_slice(&[0xAA, 0xBB, 0xCC, 0xDD, 0xEE, 0xFF]);
    assert_eq!(address.as_bytes(), [0xAA, 0xBB, 0xCC, 0xDD, 0xEE, 0xFF]);
    let longer = EthernetAddress::from_slice(&[1, 2, 3, 4, 5, 6, 7, 8]);
    assert_eq!(longer.as_bytes(), [1, 2, 3, 4, 5, 6]);
}

#[test]
fn address_as_a_number_is_big_endian() {
    let address = EthernetAddress::from_slice(&[0xAA, 0xBB, 0xCC, 0xDD, 0xEE, 0xFF]);
    assert_eq!(address.to_u64(), 0xAABB_CCDD_EEFF);
    assert_eq!(EthernetAddress::from_slice(&[0, 0, 0, 0, 0, 1]).to_u64(), 1);
    assert_eq!(EthernetAddress::from_slice(&[1, 0, 0, 0, 0, 0]).to_u64(), 0x0100_0000_0000);
    assert_eq!(EthernetAddress::from_slice(&[0, 0, 0, 0, 1, 0]).to_u64(), 0x100);
    assert_eq!(EthernetAddress::from_slice(&[0xFF; 6]).to_u64(), 0xFFFF_FFFF_FFFF);
    assert_eq!(EthernetAddress::from_slice(&[0; 6]).to_u64(), 0);
}

#[test]
fn addresses_are_equal_by_their_bytes() {
    let a = EthernetAddress::from_slice(&[1, 2, 3, 4, 5, 6]);
    let b = EthernetAddress::from_slice(&[1, 2, 3, 4, 5, 6, 7]);
    let c = EthernetAddress::from_slice(&[1, 2, 3, 4, 5, 7]);
    let d = EthernetAddress::from_slice(&[0, 2, 3, 4, 5, 6]);
    assert!(a == b);
    assert!(a != c);
    assert!(a != d);
    assert_eq!(a, b);
}

#[test]
fn addresses_are_ordered_byte_by_byte() {
    let low = EthernetAddress::from_slice(&[0x00, 0xFF, 0xFF, 0xFF, 0xFF, 0xFF]);
    let mid = EthernetAddress::from_slice(&[0x01, 0x00, 0x00, 0x00, 0x00, 0x00]);
    let high = EthernetAddress::from_slice(&[0x01, 0x00, 0x00, 0x00, 0x00, 0x01]);
    assert!(low < mid);
    assert!(mid < high);
    assert!(low < high);
    assert!(high > low);
    assert!(mid <= mid);
    assert!(mid >= mid);
    assert!(!(mid < mid));
    assert_eq!(low.partial_cmp(&mid), Some(Ordering::Less));
    assert_eq!(high.partial_cmp(&mid), Some(Ordering::Greater));
    assert_eq!(mid.partial_cmp(&mid), Some(Ordering::Equal));
}

#[test]
fn both_orders_of_an_address_agree() {
    let samples: [[u8; 6]; 7] = [
        [0, 0, 0, 0, 0, 0],
        [0, 0, 0, 0, 0, 1],
        [0, 0, 0, 0, 1, 0],
        [0, 0, 1, 0, 0, 0],
        [0, 0xFF, 0, 0, 0, 0],
        [1, 0, 0, 0, 0, 0],
        [0xFF, 0xFF, 0xFF, 0xFF, 0xFF, 0xFF],
    ];
    for x in samples {
        for y in samples {
            let a = EthernetAddress::from_slice(&x);
            let b = EthernetAddress::from_slice(&y);
            assert_eq!(a.partial_cmp(&b), Some(a.cmp(&b)));
            assert_eq!(a.cmp(&b), x.cmp(&y));
            assert_eq!(a == b, x == y);
        }
    }
}
