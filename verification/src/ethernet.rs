//! Ethernet hardware addresses and frame headers.
use core::cmp::Ordering;
use crate::net::{field_u16, read_u16, FromBuffer};
use vstd::prelude::*;
use vstd::std_specs::cmp::PartialOrdSpec;

verus! {

/// The value of six bytes read as one big-endian number, first byte most
/// significant.
pub open spec fn be48(bytes: Seq<u8>) -> nat
    recommends
        bytes.len() == 6,
{
    (bytes[0] * 0x100_0000_0000 + bytes[1] * 0x1_0000_0000 + bytes[2] * 0x100_0000 + bytes[3]
        * 0x1_0000 + bytes[4] * 0x100 + bytes[5]) as nat
}

/// An ethernet (MAC) address.
#[derive(Debug, Copy, Clone, Eq, Ord)]
pub struct EthernetAddress([u8; 6]);

impl View for EthernetAddress {
    type V = Seq<u8>;

    /// The six bytes of the address in wire order.
    closed spec fn view(&self) -> Seq<u8> {
        self.0@
    }
}

impl EthernetAddress {
    /// Takes the address from the first six bytes of `buf`.
    pub fn from_slice(buf: &[u8]) -> (address: EthernetAddress)
        requires
            buf@.len() >= 6,
        ensures
            address@ == buf@.subrange(0, 6),
    {
        EthernetAddress([buf[0], buf[1], buf[2], buf[3], buf[4], buf[5]])
    }

    /// The six bytes of the address in wire order.
    pub fn as_bytes(&self) -> (bytes: [u8; 6])
        ensures
            bytes@ == self@,
    {
        self.0
    }

    /// The address as a 48-bit number, first byte most significant.
    pub fn to_u64(&self) -> (number: u64)
        ensures
            number == be48(self@),
    {
        let b0: u64 = self.0[0] as u64;
        let b1: u64 = self.0[1] as u64;
        let b2: u64 = self.0[2] as u64;
        let b3: u64 = self.0[3] as u64;
        let b4: u64 = self.0[4] as u64;
        let b5: u64 = self.0[5] as u64;
        b0 * 0x100_0000_0000 + b1 * 0x1_0000_0000 + b2 * 0x100_0000 + b3 * 0x1_0000 + b4 * 0x100
            + b5
    }

    /// Every address has exactly six bytes.
    pub proof fn lemma_len(self)
        ensures
            self@.len() == 6,
    {
    }

    /// Two addresses with the same bytes are the same address.
    pub proof fn lemma_view_determines_address(a: EthernetAddress, b: EthernetAddress)
        requires
            a@ == b@,
        ensures
            a == b,
    {
        assert(a.0 =~= b.0);
    }
}

/// A number written as `high * base + low` with `0 <= low < base` has only
/// that one such writing.
proof fn lemma_digits_unique(high_a: int, low_a: int, high_b: int, low_b: int, base: int)
    requires
        0 < base,
        0 <= low_a < base,
        0 <= low_b < base,
        high_a * base + low_a == high_b * base + low_b,
    ensures
        high_a == high_b,
        low_a == low_b,
{
    if high_a < high_b {
        assert(high_a * base + base <= high_b * base) by (nonlinear_arith)
            requires
                high_a + 1 <= high_b,
                0 < base,
        ;
    } else if high_b < high_a {
        assert(high_b * base + base <= high_a * base) by (nonlinear_arith)
            requires
                high_b + 1 <= high_a,
                0 < base,
        ;
    }
}

/// Two six-byte sequences with the same big-endian value are the same sequence.
pub proof fn lemma_be48_injective(a: Seq<u8>, b: Seq<u8>)
    requires
        a.len() == 6,
        b.len() == 6,
        be48(a) == be48(b),
    ensures
        a == b,
{
    let (a0, a1, a2, a3, a4, a5) = (
        a[0] as int,
        a[1] as int,
        a[2] as int,
        a[3] as int,
        a[4] as int,
        a[5] as int,
    );
    let (b0, b1, b2, b3, b4, b5) = (
        b[0] as int,
        b[1] as int,
        b[2] as int,
        b[3] as int,
        b[4] as int,
        b[5] as int,
    );
    let a45 = a4 * 0x100 + a5;
    let b45 = b4 * 0x100 + b5;
    let a35 = a3 * 0x1_0000 + a45;
    let b35 = b3 * 0x1_0000 + b45;
    let a25 = a2 * 0x100_0000 + a35;
    let b25 = b2 * 0x100_0000 + b35;
    let a15 = a1 * 0x1_0000_0000 + a25;
    let b15 = b1 * 0x1_0000_0000 + b25;
    assert(a0 * 0x100_0000_0000 + a15 == be48(a));
    assert(b0 * 0x100_0000_0000 + b15 == be48(b));
    lemma_digits_unique(a0, a15, b0, b15, 0x100_0000_0000);
    lemma_digits_unique(a1, a25, b1, b25, 0x1_0000_0000);
    lemma_digits_unique(a2, a35, b2, b35, 0x100_0000);
    lemma_digits_unique(a3, a45, b3, b45, 0x1_0000);
    lemma_digits_unique(a4, a5, b4, b5, 0x100);
    assert(a =~= b);
}

impl PartialEq for EthernetAddress {
    fn eq(&self, other: &EthernetAddress) -> (equal: bool) {
        proof {
            if be48(self@) == be48(other@) {
                lemma_be48_injective(self@, other@);
            }
        }
        self.to_u64() == other.to_u64()
    }
}

impl vstd::std_specs::cmp::PartialEqSpecImpl for EthernetAddress {
    open spec fn obeys_eq_spec() -> bool {
        true
    }

    open spec fn eq_spec(&self, other: &EthernetAddress) -> bool {
        self@ == other@
    }
}

impl PartialOrd for EthernetAddress {
    fn partial_cmp(&self, other: &EthernetAddress) -> (order: Option<Ordering>) {
        let a: u64 = self.to_u64();
        let b: u64 = other.to_u64();
        if a < b {
            Some(Ordering::Less)
        } else if a > b {
            Some(Ordering::Greater)
        } else {
            Some(Ordering::Equal)
        }
    }
}

impl vstd::std_specs::cmp::PartialOrdSpecImpl for EthernetAddress {
    open spec fn obeys_partial_cmp_spec() -> bool {
        true
    }

    open spec fn partial_cmp_spec(&self, other: &EthernetAddress) -> Option<Ordering> {
        if be48(self@) < be48(other@) {
            Some(Ordering::Less)
        } else if be48(self@) > be48(other@) {
            Some(Ordering::Greater)
        } else {
            Some(Ordering::Equal)
        }
    }
}

/// Whether `a` comes before `b` when the two are compared byte by byte from
/// the first: where they first differ, `a` has the smaller byte.
pub open spec fn bytes_less(a: Seq<u8>, b: Seq<u8>) -> bool {
    exists|i: int| 0 <= i < 6 && #[trigger] a.subrange(0, i) == b.subrange(0, i) && a[i] < b[i]
}

/// A larger high part outweighs any low part below the base.
proof fn lemma_high_part_decides(high_a: int, low_a: int, high_b: int, low_b: int, base: int)
    requires
        0 < base,
        0 <= low_a < base,
        0 <= low_b < base,
        high_a < high_b,
    ensures
        high_a * base + low_a < high_b * base + low_b,
{
    assert(high_a * base + base <= high_b * base) by (nonlinear_arith)
        requires
            high_a + 1 <= high_b,
            0 < base,
    ;
}

/// Where two six-byte sequences first differ, the one with the smaller byte
/// has the smaller big-endian value.
proof fn lemma_first_difference_decides(a: Seq<u8>, b: Seq<u8>, i: int)
    requires
        a.len() == 6,
        b.len() == 6,
        0 <= i < 6,
        a.subrange(0, i) == b.subrange(0, i),
        a[i] < b[i],
    ensures
        be48(a) < be48(b),
{
    assert forall|j: int| 0 <= j < i implies a[j] == b[j] by {
        assert(a[j] == a.subrange(0, i)[j]);
        assert(b[j] == b.subrange(0, i)[j]);
    }
    let (a0, a1, a2, a3, a4, a5) = (
        a[0] as int,
        a[1] as int,
        a[2] as int,
        a[3] as int,
        a[4] as int,
        a[5] as int,
    );
    let (b0, b1, b2, b3, b4, b5) = (
        b[0] as int,
        b[1] as int,
        b[2] as int,
        b[3] as int,
        b[4] as int,
        b[5] as int,
    );
    let a45 = a4 * 0x100 + a5;
    let b45 = b4 * 0x100 + b5;
    let a35 = a3 * 0x1_0000 + a45;
    let b35 = b3 * 0x1_0000 + b45;
    let a25 = a2 * 0x100_0000 + a35;
    let b25 = b2 * 0x100_0000 + b35;
    let a15 = a1 * 0x1_0000_0000 + a25;
    let b15 = b1 * 0x1_0000_0000 + b25;
    assert(a0 * 0x100_0000_0000 + a15 == be48(a));
    assert(b0 * 0x100_0000_0000 + b15 == be48(b));
    if i == 0 {
        lemma_high_part_decides(a0, a15, b0, b15, 0x100_0000_0000);
    } else if i == 1 {
        lemma_high_part_decides(a1, a25, b1, b25, 0x1_0000_0000);
    } else if i == 2 {
        lemma_high_part_decides(a2, a35, b2, b35, 0x100_0000);
    } else if i == 3 {
        lemma_high_part_decides(a3, a45, b3, b45, 0x1_0000);
    } else if i == 4 {
        lemma_high_part_decides(a4, a5, b4, b5, 0x100);
    }
}

/// The position at which two different six-byte sequences first differ.
proof fn lemma_first_difference(a: Seq<u8>, b: Seq<u8>) -> (i: int)
    requires
        a.len() == 6,
        b.len() == 6,
        a != b,
    ensures
        0 <= i < 6,
        a.subrange(0, i) == b.subrange(0, i),
        a[i] != b[i],
{
    let i: int = if a[0] != b[0] {
        0
    } else if a[1] != b[1] {
        1
    } else if a[2] != b[2] {
        2
    } else if a[3] != b[3] {
        3
    } else if a[4] != b[4] {
        4
    } else {
        5
    };
    if a[5] == b[5] && i == 5 {
        assert(a =~= b);
    }
    assert(a.subrange(0, i) =~= b.subrange(0, i));
    i
}

/// The order of the big-endian values of six-byte sequences is the order of
/// the sequences compared byte by byte, which is the order that `cmp` gives
/// to addresses.
pub proof fn lemma_be48_order_is_bytewise(a: Seq<u8>, b: Seq<u8>)
    requires
        a.len() == 6,
        b.len() == 6,
    ensures
        be48(a) < be48(b) <==> bytes_less(a, b),
{
    if bytes_less(a, b) {
        let i = choose|i: int|
            0 <= i < 6 && #[trigger] a.subrange(0, i) == b.subrange(0, i) && a[i] < b[i];
        lemma_first_difference_decides(a, b, i);
    }
    if be48(a) < be48(b) {
        let i = lemma_first_difference(a, b);
        if a[i] > b[i] {
            lemma_first_difference_decides(b, a, i);
        }
    }
}

impl EthernetAddress {
    /// Addresses are totally ordered, byte by byte from the first, and two
    /// addresses compare as equal only if they are the same address.
    pub proof fn lemma_order_is_total_and_bytewise(a: EthernetAddress, b: EthernetAddress)
        ensures
            a.partial_cmp_spec(&b) == Some(Ordering::Less) <==> bytes_less(a@, b@),
            a.partial_cmp_spec(&b) == Some(Ordering::Greater) <==> bytes_less(b@, a@),
            a.partial_cmp_spec(&b) == Some(Ordering::Equal) <==> a == b,
            a.partial_cmp_spec(&b) is Some,
    {
        lemma_be48_order_is_bytewise(a@, b@);
        lemma_be48_order_is_bytewise(b@, a@);
        if be48(a@) == be48(b@) {
            lemma_be48_injective(a@, b@);
            Self::lemma_view_determines_address(a, b);
        }
    }
}

/// The protocol carried in an Ethernet frame's payload, as far as this stack
/// tells protocols apart.
#[allow(non_camel_case_types)]
#[derive(Debug, Copy, Clone, PartialEq, Eq, Structural)]
pub enum Ethertype {
    /// Internet Protocol version 4, `0x0800`.
    IPV4,
    /// Address Resolution Protocol, `0x0806`.
    ARP,
    /// Wake-on-LAN, `0x0842`.
    WAKE_ON_LAN,
    /// Reverse Address Resolution Protocol, `0x8035`.
    RARP,
    /// Virtual Link Aggregation Control Protocol, `0x8103`.
    SLPP,
    /// Internet Protocol version 6, `0x86DD`.
    IPV6,
    /// No protocol, `0xFFFF`. Decoding never gives this variant.
    UNKNOWN,
}

impl Ethertype {
    /// The variant that stands for the wire value `value`.
    ///
    /// A value that is none of the six known ones is classified as `IPV6`;
    /// no value is classified as `UNKNOWN`. A caller that must tell IPv6 from
    /// what is not known compares the field itself with `0x86DD`.
    pub open spec fn spec_from_u16(value: u16) -> Ethertype {
        if value == 0x0800 {
            Ethertype::IPV4
        } else if value == 0x0806 {
            Ethertype::ARP
        } else if value == 0x0842 {
            Ethertype::WAKE_ON_LAN
        } else if value == 0x8035 {
            Ethertype::RARP
        } else if value == 0x8103 {
            Ethertype::SLPP
        } else {
            Ethertype::IPV6
        }
    }

    /// The wire value that the variant is named after.
    pub open spec fn spec_to_u16(self) -> u16 {
        match self {
            Ethertype::IPV4 => 0x0800,
            Ethertype::ARP => 0x0806,
            Ethertype::WAKE_ON_LAN => 0x0842,
            Ethertype::RARP => 0x8035,
            Ethertype::SLPP => 0x8103,
            Ethertype::IPV6 => 0x86DD,
            Ethertype::UNKNOWN => 0xFFFF,
        }
    }

    /// Classifies the wire value `value`.
    pub fn from_u16(value: u16) -> (ethertype: Ethertype)
        ensures
            ethertype == Self::spec_from_u16(value),
    {
        match value {
            0x0800 => Ethertype::IPV4,
            0x0806 => Ethertype::ARP,
            0x0842 => Ethertype::WAKE_ON_LAN,
            0x8035 => Ethertype::RARP,
            0x8103 => Ethertype::SLPP,
            0x86DD => Ethertype::IPV6,
            _ => Ethertype::IPV6,
        }
    }

    /// The wire value that the variant is named after.
    pub fn to_u16(self) -> (value: u16)
        ensures
            value == self.spec_to_u16(),
    {
        match self {
            Ethertype::IPV4 => 0x0800,
            Ethertype::ARP => 0x0806,
            Ethertype::WAKE_ON_LAN => 0x0842,
            Ethertype::RARP => 0x8035,
            Ethertype::SLPP => 0x8103,
            Ethertype::IPV6 => 0x86DD,
            Ethertype::UNKNOWN => 0xFFFF,
        }
    }

    /// Classifies the big-endian field that `buf` holds. `buf` is the field
    /// and nothing else.
    pub fn from_slice(buf: &[u8]) -> (ethertype: Ethertype)
        requires
            buf@.len() == 2,
        ensures
            ethertype == Self::spec_from_u16(field_u16(buf@, 0)),
    {
        Ethertype::from_u16(read_u16(buf, 0))
    }

    /// Every wire value is classified, as a protocol this stack knows.
    pub proof fn lemma_from_u16_total(value: u16)
        ensures
            Self::spec_from_u16(value) != Ethertype::UNKNOWN,
            Self::spec_from_u16(value) != Ethertype::IPV6 ==> Self::spec_from_u16(
                value,
            ).spec_to_u16() == value,
    {
    }

    /// A variant other than `UNKNOWN` is what its own wire value is
    /// classified as.
    pub proof fn lemma_from_to_u16(ethertype: Ethertype)
        requires
            ethertype != Ethertype::UNKNOWN,
        ensures
            Self::spec_from_u16(ethertype.spec_to_u16()) == ethertype,
    {
    }
}

/// The header of an Ethernet frame as a value of its fields.
pub ghost struct EthernetFrameView {
    /// The six bytes of the receiver's address.
    pub destination: Seq<u8>,
    /// The six bytes of the sender's address.
    pub source: Seq<u8>,
    /// The protocol of the payload.
    pub ethertype: Ethertype,
}

/// Number of bytes in an Ethernet frame header.
pub const ETHERNET_HEADER_LEN: usize = 14;

/// An ethernet frame header.
#[derive(Debug, Copy, Clone, Eq)]
pub struct EthernetFrame {
    /// The station that the frame is for.
    pub destination: EthernetAddress,
    /// The station that sent the frame.
    pub source: EthernetAddress,
    /// The protocol of the payload.
    pub ethertype: Ethertype,
}

impl View for EthernetFrame {
    type V = EthernetFrameView;

    open spec fn view(&self) -> EthernetFrameView {
        EthernetFrameView {
            destination: self.destination@,
            source: self.source@,
            ethertype: self.ethertype,
        }
    }
}

impl PartialEq for EthernetFrame {
    fn eq(&self, other: &EthernetFrame) -> (equal: bool) {
        self.destination == other.destination && self.source == other.source && self.ethertype
            == other.ethertype
    }
}

impl vstd::std_specs::cmp::PartialEqSpecImpl for EthernetFrame {
    open spec fn obeys_eq_spec() -> bool {
        true
    }

    open spec fn eq_spec(&self, other: &EthernetFrame) -> bool {
        self@ == other@
    }
}

impl EthernetFrame {
    /// Creates a new EthernetHeader from a slice of bytes.
    pub fn from_slice(buf: &[u8]) -> (frame: EthernetFrame)
        requires
            buf@.len() >= ETHERNET_HEADER_LEN,
        ensures
            frame@ == Self::spec_from_buffer(buf@),
    {
        let frame = EthernetFrame {
            destination: EthernetAddress::from_slice(&buf[0..6]),
            source: EthernetAddress::from_slice(&buf[6..12]),
            ethertype: Ethertype::from_slice(&buf[12..14]),
        };
        proof {
            assert(frame.destination@ =~= buf@.subrange(0, 6));
            assert(frame.source@ =~= buf@.subrange(6, 12));
        }
        frame
    }
}

impl FromBuffer for EthernetFrame {
    open spec fn spec_wire_len() -> nat {
        ETHERNET_HEADER_LEN as nat
    }

    open spec fn spec_size() -> nat {
        ETHERNET_HEADER_LEN as nat
    }

    /// Destination in bytes 0 to 5, source in bytes 6 to 11, and the
    /// big-endian protocol type in bytes 12 and 13.
    open spec fn spec_from_buffer(bytes: Seq<u8>) -> EthernetFrameView {
        EthernetFrameView {
            destination: bytes.subrange(0, 6),
            source: bytes.subrange(6, 12),
            ethertype: Ethertype::spec_from_u16(field_u16(bytes, 12)),
        }
    }

    proof fn lemma_size_within_wire_len() {
    }

    proof fn lemma_view_determines_unit(a: EthernetFrame, b: EthernetFrame) {
        EthernetAddress::lemma_view_determines_address(a.destination, b.destination);
        EthernetAddress::lemma_view_determines_address(a.source, b.source);
    }

    proof fn lemma_reads_only_the_unit(a: Seq<u8>, b: Seq<u8>) {
        let head_a = a.subrange(0, 14);
        let head_b = b.subrange(0, 14);
        assert(a.subrange(0, 6) =~= head_a.subrange(0, 6));
        assert(b.subrange(0, 6) =~= head_b.subrange(0, 6));
        assert(a.subrange(6, 12) =~= head_a.subrange(6, 12));
        assert(b.subrange(6, 12) =~= head_b.subrange(6, 12));
        assert(a[12] == head_a[12] && a[13] == head_a[13]);
        assert(b[12] == head_b[12] && b[13] == head_b[13]);
    }

    fn wire_len() -> (len: usize) {
        ETHERNET_HEADER_LEN
    }

    fn from_buffer(buf: &[u8]) -> (frame: EthernetFrame) {
        EthernetFrame::from_slice(buf)
    }

    fn size(&self) -> (size: usize) {
        ETHERNET_HEADER_LEN
    }
}

} // verus!
