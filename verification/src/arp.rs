//! The Address Resolution Protocol: its packets, the reply to a request, and
//! the cache of the bindings it has taught.
use crate::ethernet::{be48, lemma_be48_injective, EthernetAddress};
use crate::ip::Ipv4Addr;
use crate::net::{field_u16, read_u16, u16_bytes, write_u16, FromBuffer};
use std::collections::BTreeMap;
use vstd::prelude::*;

verus! {

/// The kind of link that the hardware addresses of a packet belong to.
#[derive(Debug, Copy, Clone, PartialEq, Eq, Structural)]
pub enum HardwareType {
    /// Ethernet, `0x0001`.
    Ethernet,
    /// Any other value.
    Unknown,
}

impl HardwareType {
    /// The variant that stands for the wire value `value`.
    pub open spec fn spec_from_u16(value: u16) -> HardwareType {
        if value == 0x0001 {
            HardwareType::Ethernet
        } else {
            HardwareType::Unknown
        }
    }

    /// The wire value of the variant; `Unknown` has none.
    pub open spec fn spec_to_u16(self) -> Option<u16> {
        match self {
            HardwareType::Ethernet => Some(0x0001u16),
            HardwareType::Unknown => None,
        }
    }

    /// The wire value of the variant; `Unknown` has none.
    pub fn to_u16(self) -> (value: Option<u16>)
        ensures
            value == self.spec_to_u16(),
    {
        match self {
            HardwareType::Ethernet => Some(0x0001),
            HardwareType::Unknown => None,
        }
    }

    /// Classifies the wire value `value`.
    pub fn from_u16(value: u16) -> (htype: HardwareType)
        ensures
            htype == Self::spec_from_u16(value),
    {
        match value {
            0x0001 => HardwareType::Ethernet,
            _ => HardwareType::Unknown,
        }
    }

    /// Classifies the big-endian field in the first two bytes of `buf`.
    pub fn from_slice(buf: &[u8]) -> (htype: HardwareType)
        requires
            buf@.len() >= 2,
        ensures
            htype == Self::spec_from_u16(field_u16(buf@, 0)),
    {
        HardwareType::from_u16(read_u16(buf, 0))
    }
}

/// The protocol that the protocol addresses of a packet belong to.
#[derive(Debug, Copy, Clone, PartialEq, Eq, Structural)]
pub enum ProtocolType {
    /// IPv4, `0x0800`.
    Ipv4,
    /// Any other value.
    Unknown,
}

impl ProtocolType {
    /// The variant that stands for the wire value `value`.
    pub open spec fn spec_from_u16(value: u16) -> ProtocolType {
        if value == 0x0800 {
            ProtocolType::Ipv4
        } else {
            ProtocolType::Unknown
        }
    }

    /// The wire value of the variant; `Unknown` has none.
    pub open spec fn spec_to_u16(self) -> Option<u16> {
        match self {
            ProtocolType::Ipv4 => Some(0x0800u16),
            ProtocolType::Unknown => None,
        }
    }

    /// The wire value of the variant; `Unknown` has none.
    pub fn to_u16(self) -> (value: Option<u16>)
        ensures
            value == self.spec_to_u16(),
    {
        match self {
            ProtocolType::Ipv4 => Some(0x0800),
            ProtocolType::Unknown => None,
        }
    }

    /// Classifies the wire value `value`.
    pub fn from_u16(value: u16) -> (ptype: ProtocolType)
        ensures
            ptype == Self::spec_from_u16(value),
    {
        match value {
            0x0800 => ProtocolType::Ipv4,
            _ => ProtocolType::Unknown,
        }
    }

    /// Classifies the big-endian field in the first two bytes of `buf`.
    pub fn from_slice(buf: &[u8]) -> (ptype: ProtocolType)
        requires
            buf@.len() >= 2,
        ensures
            ptype == Self::spec_from_u16(field_u16(buf@, 0)),
    {
        ProtocolType::from_u16(read_u16(buf, 0))
    }
}

/// What a packet asks for or answers.
#[derive(Debug, Copy, Clone, PartialEq, Eq, Structural)]
pub enum Operation {
    /// A question for the hardware address of a protocol address, `0x0001`.
    Request,
    /// The answer to a request, `0x0002`.
    Reply,
    /// Any other value.
    Unknown,
}

impl Operation {
    /// The variant that stands for the wire value `value`.
    pub open spec fn spec_from_u16(value: u16) -> Operation {
        if value == 0x0001 {
            Operation::Request
        } else if value == 0x0002 {
            Operation::Reply
        } else {
            Operation::Unknown
        }
    }

    /// The wire value of the variant; `Unknown` has none.
    pub open spec fn spec_to_u16(self) -> Option<u16> {
        match self {
            Operation::Request => Some(0x0001u16),
            Operation::Reply => Some(0x0002u16),
            Operation::Unknown => None,
        }
    }

    /// The wire value of the variant; `Unknown` has none.
    pub fn to_u16(self) -> (value: Option<u16>)
        ensures
            value == self.spec_to_u16(),
    {
        match self {
            Operation::Request => Some(0x0001),
            Operation::Reply => Some(0x0002),
            Operation::Unknown => None,
        }
    }

    /// Classifies the wire value `value`.
    pub fn from_u16(value: u16) -> (oper: Operation)
        ensures
            oper == Self::spec_from_u16(value),
    {
        match value {
            0x0001 => Operation::Request,
            0x0002 => Operation::Reply,
            _ => Operation::Unknown,
        }
    }

    /// Classifies the big-endian field in the first two bytes of `buf`.
    pub fn from_slice(buf: &[u8]) -> (oper: Operation)
        requires
            buf@.len() >= 2,
        ensures
            oper == Self::spec_from_u16(field_u16(buf@, 0)),
    {
        Operation::from_u16(read_u16(buf, 0))
    }
}

/// Each of the three two-byte fields of a packet is classified whatever it
/// holds: the known values as their variants, every other value as `Unknown`.
pub proof fn lemma_fields_total(value: u16)
    ensures
        HardwareType::spec_from_u16(value) == HardwareType::Ethernet <==> value == 0x0001,
        HardwareType::spec_from_u16(value) == HardwareType::Unknown <==> value != 0x0001,
        ProtocolType::spec_from_u16(value) == ProtocolType::Ipv4 <==> value == 0x0800,
        ProtocolType::spec_from_u16(value) == ProtocolType::Unknown <==> value != 0x0800,
        Operation::spec_from_u16(value) == Operation::Request <==> value == 0x0001,
        Operation::spec_from_u16(value) == Operation::Reply <==> value == 0x0002,
        Operation::spec_from_u16(value) == Operation::Unknown <==> value != 0x0001 && value
            != 0x0002,
{
}

/// Number of bytes that an ARP packet for Ethernet and IPv4 occupies on the
/// wire.
pub const ARP_PACKET_LEN: usize = 28;

/// Number of bytes that a decoded packet reports as its size. It ends two
/// bytes before the packet does: a reader that advances by it finds the last
/// two bytes of the target protocol address still ahead.
pub const ARP_REPORTED_SIZE: usize = 26;

/// An ARP packet as a value of its fields.
pub ghost struct PacketView {
    /// The kind of link.
    pub htype: HardwareType,
    /// The protocol being resolved.
    pub ptype: ProtocolType,
    /// The stated length of a hardware address.
    pub hlen: u8,
    /// The stated length of a protocol address.
    pub plen: u8,
    /// Request or reply.
    pub oper: Operation,
    /// The six bytes of the sender's hardware address.
    pub sha: Seq<u8>,
    /// The four bytes of the sender's protocol address.
    pub spa: Seq<u8>,
    /// The six bytes of the target's hardware address.
    pub tha: Seq<u8>,
    /// The four bytes of the target's protocol address.
    pub tpa: Seq<u8>,
}

impl PacketView {
    /// Whether the packet has a wire form: each of its three classified
    /// fields holds a value that is known.
    pub open spec fn encodable(self) -> bool {
        self.htype != HardwareType::Unknown && self.ptype != ProtocolType::Unknown && self.oper
            != Operation::Unknown
    }

    /// The bytes of an encodable packet on the wire, field after field.
    pub open spec fn wire_bytes(self) -> Seq<u8>
        recommends
            self.encodable(),
    {
        u16_bytes(self.htype.spec_to_u16().unwrap()) + u16_bytes(self.ptype.spec_to_u16().unwrap())
            + seq![self.hlen, self.plen] + u16_bytes(self.oper.spec_to_u16().unwrap()) + self.sha
            + self.spa + self.tha + self.tpa
    }
}

/// Represents an ARP packet.
#[derive(Debug, Copy, Clone, Eq)]
pub struct Packet {
    /// The kind of link.
    pub htype: HardwareType,
    /// The protocol being resolved.
    pub ptype: ProtocolType,
    /// The stated length of a hardware address.
    pub hlen: u8,
    /// The stated length of a protocol address.
    pub plen: u8,
    /// Request or reply.
    pub oper: Operation,
    /// The sender's hardware address.
    pub sha: EthernetAddress,
    /// The sender's protocol address.
    pub spa: Ipv4Addr,
    /// The target's hardware address.
    pub tha: EthernetAddress,
    /// The target's protocol address.
    pub tpa: Ipv4Addr,
}

impl View for Packet {
    type V = PacketView;

    open spec fn view(&self) -> PacketView {
        PacketView {
            htype: self.htype,
            ptype: self.ptype,
            hlen: self.hlen,
            plen: self.plen,
            oper: self.oper,
            sha: self.sha@,
            spa: self.spa@,
            tha: self.tha@,
            tpa: self.tpa@,
        }
    }
}

impl PartialEq for Packet {
    fn eq(&self, other: &Packet) -> (equal: bool) {
        self.htype == other.htype && self.ptype == other.ptype && self.hlen == other.hlen
            && self.plen == other.plen && self.oper == other.oper && self.sha == other.sha
            && self.spa == other.spa && self.tha == other.tha && self.tpa == other.tpa
    }
}

impl vstd::std_specs::cmp::PartialEqSpecImpl for Packet {
    open spec fn obeys_eq_spec() -> bool {
        true
    }

    open spec fn eq_spec(&self, other: &Packet) -> bool {
        self@ == other@
    }
}

impl Packet {
    /// The reply to `request` from the station with the hardware address
    /// `mac_address`: that station takes the place of the sender and claims
    /// the protocol address that was asked for; the asker becomes the target.
    pub open spec fn spec_from_request(request: Packet, mac_address: EthernetAddress) -> Packet {
        Packet {
            htype: HardwareType::Ethernet,
            ptype: ProtocolType::Ipv4,
            hlen: 6,
            plen: 4,
            oper: Operation::Reply,
            sha: mac_address,
            spa: request.tpa,
            tha: request.sha,
            tpa: request.spa,
        }
    }

    /// Decodes the packet in the first 28 bytes of `buf`.
    pub fn from_slice(buf: &[u8]) -> (packet: Packet)
        requires
            buf@.len() >= ARP_PACKET_LEN,
        ensures
            packet@ == Self::spec_from_buffer(buf@),
    {
        let packet = Packet {
            htype: HardwareType::from_slice(buf),
            ptype: ProtocolType::from_slice(&buf[2..4]),
            hlen: buf[4],
            plen: buf[5],
            oper: Operation::from_slice(&buf[6..8]),
            sha: EthernetAddress::from_slice(&buf[8..14]),
            spa: Ipv4Addr::from_slice(&buf[14..18]),
            tha: EthernetAddress::from_slice(&buf[18..24]),
            tpa: Ipv4Addr::from_slice(&buf[24..28]),
        };
        proof {
            assert(packet.sha@ =~= buf@.subrange(8, 14));
            assert(packet.spa@ =~= buf@.subrange(14, 18));
            assert(packet.tha@ =~= buf@.subrange(18, 24));
            assert(packet.tpa@ =~= buf@.subrange(24, 28));
        }
        packet
    }

    /// The 28 bytes of the packet on the wire, or nothing for a packet with
    /// an `Unknown` field, which has no wire form.
    pub fn to_bytes(&self) -> (bytes: Option<[u8; 28]>)
        ensures
            bytes is Some <==> self@.encodable(),
            bytes matches Some(wire) ==> wire@ == self@.wire_bytes(),
    {
        let (htype, ptype, oper) = match (
            self.htype.to_u16(),
            self.ptype.to_u16(),
            self.oper.to_u16(),
        ) {
            (Some(htype), Some(ptype), Some(oper)) => (htype, ptype, oper),
            _ => {
                return None;
            },
        };
        let h = write_u16(htype);
        let p = write_u16(ptype);
        let o = write_u16(oper);
        let sha = self.sha.as_bytes();
        let spa = self.spa.as_bytes();
        let tha = self.tha.as_bytes();
        let tpa = self.tpa.as_bytes();
        let wire: [u8; 28] = [
            h[0], h[1], p[0], p[1], self.hlen, self.plen, o[0], o[1],
            sha[0], sha[1], sha[2], sha[3], sha[4], sha[5],
            spa[0], spa[1], spa[2], spa[3],
            tha[0], tha[1], tha[2], tha[3], tha[4], tha[5],
            tpa[0], tpa[1], tpa[2], tpa[3],
        ];
        proof {
            self.sha.lemma_len();
            self.tha.lemma_len();
            self.spa.lemma_len();
            self.tpa.lemma_len();
            assert(wire@ =~= self@.wire_bytes());
        }
        Some(wire)
    }

    /// Create a new ARP response from a request.
    pub fn from_request(request: &Packet, mac_address: EthernetAddress) -> (reply: Packet)
        ensures
            reply == Self::spec_from_request(*request, mac_address),
            reply.oper == Operation::Reply,
            reply.sha == mac_address,
            reply.spa == request.tpa,
            reply.tha == request.sha,
            reply.tpa == request.spa,
    {
        Packet {
            htype: HardwareType::Ethernet,
            ptype: ProtocolType::Ipv4,
            hlen: 0x06,
            plen: 0x04,
            oper: Operation::Reply,
            sha: mac_address,
            spa: request.tpa,
            tha: request.sha,
            tpa: request.spa,
        }
    }
}

impl FromBuffer for Packet {
    open spec fn spec_wire_len() -> nat {
        ARP_PACKET_LEN as nat
    }

    open spec fn spec_size() -> nat {
        ARP_REPORTED_SIZE as nat
    }

    /// Hardware type in bytes 0 and 1, protocol type in bytes 2 and 3, the two
    /// address lengths in bytes 4 and 5, the operation in bytes 6 and 7, then
    /// the sender's hardware and protocol address and the target's hardware
    /// and protocol address. Two-byte fields are big-endian.
    open spec fn spec_from_buffer(bytes: Seq<u8>) -> PacketView {
        PacketView {
            htype: HardwareType::spec_from_u16(field_u16(bytes, 0)),
            ptype: ProtocolType::spec_from_u16(field_u16(bytes, 2)),
            hlen: bytes[4],
            plen: bytes[5],
            oper: Operation::spec_from_u16(field_u16(bytes, 6)),
            sha: bytes.subrange(8, 14),
            spa: bytes.subrange(14, 18),
            tha: bytes.subrange(18, 24),
            tpa: bytes.subrange(24, 28),
        }
    }

    proof fn lemma_size_within_wire_len() {
    }

    proof fn lemma_view_determines_unit(a: Packet, b: Packet) {
        EthernetAddress::lemma_view_determines_address(a.sha, b.sha);
        EthernetAddress::lemma_view_determines_address(a.tha, b.tha);
        Ipv4Addr::lemma_view_determines_address(a.spa, b.spa);
        Ipv4Addr::lemma_view_determines_address(a.tpa, b.tpa);
    }

    proof fn lemma_reads_only_the_unit(a: Seq<u8>, b: Seq<u8>) {
        let head_a = a.subrange(0, 28);
        let head_b = b.subrange(0, 28);
        assert forall|i: int| 0 <= i < 28 implies a[i] == b[i] by {
            assert(a[i] == head_a[i] && b[i] == head_b[i]);
        }
        assert(a.subrange(8, 14) =~= b.subrange(8, 14));
        assert(a.subrange(14, 18) =~= b.subrange(14, 18));
        assert(a.subrange(18, 24) =~= b.subrange(18, 24));
        assert(a.subrange(24, 28) =~= b.subrange(24, 28));
    }

    fn wire_len() -> (len: usize) {
        ARP_PACKET_LEN
    }

    fn from_buffer(buf: &[u8]) -> (packet: Packet) {
        Packet::from_slice(buf)
    }

    fn size(&self) -> (size: usize) {
        ARP_REPORTED_SIZE
    }
}

/// Decoding undoes encoding: the wire form of a packet is 28 bytes that
/// decode to the packet.
pub proof fn lemma_decode_inverts_encode(packet: Packet)
    requires
        packet@.encodable(),
    ensures
        packet@.wire_bytes().len() == ARP_PACKET_LEN,
        Packet::spec_from_buffer(packet@.wire_bytes()) == packet@,
{
    packet.sha.lemma_len();
    packet.spa.lemma_len();
    packet.tha.lemma_len();
    packet.tpa.lemma_len();
    let wire = packet@.wire_bytes();
    let decoded = Packet::spec_from_buffer(wire);
    assert(decoded.sha =~= packet@.sha);
    assert(decoded.spa =~= packet@.spa);
    assert(decoded.tha =~= packet@.tha);
    assert(decoded.tpa =~= packet@.tpa);
}

/// Encoding undoes decoding: where a buffer decodes to a packet that has a
/// wire form, that form is the 28 bytes that were decoded.
pub proof fn lemma_encode_inverts_decode(bytes: Seq<u8>)
    requires
        bytes.len() >= ARP_PACKET_LEN,
        Packet::spec_from_buffer(bytes).encodable(),
    ensures
        Packet::spec_from_buffer(bytes).wire_bytes() == bytes.subrange(0, ARP_PACKET_LEN as int),
{
    assert(Packet::spec_from_buffer(bytes).wire_bytes() =~= bytes.subrange(
        0,
        ARP_PACKET_LEN as int,
    ));
}

/// The reply to any request has a wire form, whatever the request holds.
pub proof fn lemma_reply_is_encodable(request: Packet, mac_address: EthernetAddress)
    ensures
        Packet::spec_from_request(request, mac_address)@.encodable(),
{
}

/// An ARP cache entry.
struct CacheEntry {
    ethernet_address: EthernetAddress,
    ip_address: Ipv4Addr,
}

/// The bindings from hardware address to protocol address that ARP traffic
/// has taught: at most one for each hardware address, the one learned last.
///
/// Bindings stay until they are overwritten; nothing expires.
pub struct Cache {
    /// The entries, each filed under the 48-bit number of its hardware
    /// address.
    table: BTreeMap<u64, CacheEntry>,
}

impl View for Cache {
    type V = Map<Seq<u8>, Seq<u8>>;

    /// The protocol address bytes bound to each hardware address, by its six
    /// bytes.
    closed spec fn view(&self) -> Map<Seq<u8>, Seq<u8>> {
        Map::new(
            |mac: Seq<u8>| mac.len() == 6 && self.table@.contains_key(be48(mac) as u64),
            |mac: Seq<u8>| self.table@[be48(mac) as u64].ip_address@,
        )
    }
}

impl Cache {
    /// Every entry is filed under the number of its own hardware address.
    #[verifier::type_invariant]
    spec fn filed_by_address(&self) -> bool {
        forall|key: u64| #[trigger]
            self.table@.contains_key(key) ==> be48(self.table@[key].ethernet_address@) == key
    }

    /// Every binding is of a six-byte hardware address to a four-byte
    /// protocol address.
    pub proof fn lemma_bindings_are_addresses(&self)
        ensures
            forall|mac: Seq<u8>| #[trigger]
                self@.contains_key(mac) ==> mac.len() == 6 && self@[mac].len() == 4,
    {
        assert forall|mac: Seq<u8>| #[trigger] self@.contains_key(mac) implies mac.len() == 6
            && self@[mac].len() == 4 by {
            self.table@[be48(mac) as u64].ip_address.lemma_len();
        }
    }

    /// A cache without bindings.
    pub fn new() -> (cache: Cache)
        ensures
            cache@ == Map::<Seq<u8>, Seq<u8>>::empty(),
    {
        let cache = Cache { table: BTreeMap::new() };
        proof {
            assert(cache@ =~= Map::<Seq<u8>, Seq<u8>>::empty());
        }
        cache
    }

    /// The protocol address bound to `ethernet_address`, if there is one.
    pub fn address(&self, ethernet_address: &EthernetAddress) -> (found: Option<Ipv4Addr>)
        ensures
            found is Some <==> self@.contains_key(ethernet_address@),
            found matches Some(ip_address) ==> ip_address@ == self@[ethernet_address@],
    {
        proof {
            ethernet_address.lemma_len();
        }
        let key: u64 = ethernet_address.to_u64();
        match self.table.get(&key) {
            Some(x) => Some(x.ip_address),
            None => None,
        }
    }

    /// Binds `ip_address` to `ethernet_address`, in place of what was bound
    /// to it before, and returns what was bound to it before.
    pub fn insert(&mut self, ethernet_address: EthernetAddress, ip_address: Ipv4Addr) -> (previous:
        Option<Ipv4Addr>)
        ensures
            final(self)@ == old(self)@.insert(ethernet_address@, ip_address@),
            previous is Some <==> old(self)@.contains_key(ethernet_address@),
            previous matches Some(before) ==> before@ == old(self)@[ethernet_address@],
    {
        proof {
            use_type_invariant(&*self);
            ethernet_address.lemma_len();
        }
        let key: u64 = ethernet_address.to_u64();
        // The table is taken out while it is changed; the cache's invariant
        // is checked when it is put back.
        let mut table: BTreeMap<u64, CacheEntry> = BTreeMap::new();
        core::mem::swap(&mut self.table, &mut table);
        let replaced = table.insert(key, CacheEntry { ethernet_address, ip_address });
        core::mem::swap(&mut self.table, &mut table);
        proof {
            assert forall|mac: Seq<u8>|
                mac.len() == 6 && mac != ethernet_address@ implies be48(mac) != be48(
                ethernet_address@,
            ) by {
                if be48(mac) == be48(ethernet_address@) {
                    lemma_be48_injective(mac, ethernet_address@);
                }
            }
            assert(self@ =~= old(self)@.insert(ethernet_address@, ip_address@));
        }
        match replaced {
            Some(entry) => Some(entry.ip_address),
            None => None,
        }
    }
}

/// The bindings that a cache holds after the insertions `inserts`, each an
/// address and what is bound to it, were made in order into a new cache.
pub open spec fn bindings_after(inserts: Seq<(Seq<u8>, Seq<u8>)>) -> Map<Seq<u8>, Seq<u8>>
    decreases inserts.len(),
{
    if inserts.len() == 0 {
        Map::empty()
    } else {
        bindings_after(inserts.drop_last()).insert(inserts.last().0, inserts.last().1)
    }
}

/// One more insertion changes the bindings as `Cache::insert` changes a
/// cache.
pub proof fn lemma_bindings_after_push(
    inserts: Seq<(Seq<u8>, Seq<u8>)>,
    mac: Seq<u8>,
    ip: Seq<u8>,
)
    ensures
        bindings_after(inserts.push((mac, ip))) == bindings_after(inserts).insert(mac, ip),
{
    assert(inserts.push((mac, ip)).drop_last() =~= inserts);
}

/// An address that no insertion names has no binding.
pub proof fn lemma_never_inserted_is_absent(inserts: Seq<(Seq<u8>, Seq<u8>)>, mac: Seq<u8>)
    requires
        forall|i: int| 0 <= i < inserts.len() ==> inserts[i].0 != mac,
    ensures
        !bindings_after(inserts).contains_key(mac),
    decreases inserts.len(),
{
    if inserts.len() > 0 {
        lemma_never_inserted_is_absent(inserts.drop_last(), mac);
    }
}

/// An address is bound to what the last insertion that names it gave it.
pub proof fn lemma_last_insertion_wins(inserts: Seq<(Seq<u8>, Seq<u8>)>, last: int)
    requires
        0 <= last < inserts.len(),
        forall|i: int| last < i < inserts.len() ==> inserts[i].0 != inserts[last].0,
    ensures
        bindings_after(inserts).contains_key(inserts[last].0),
        bindings_after(inserts)[inserts[last].0] == inserts[last].1,
    decreases inserts.len(),
{
    if last < inserts.len() - 1 {
        lemma_last_insertion_wins(inserts.drop_last(), last);
    }
}

/// A lookup is a function of the bindings and the address: as long as
/// nothing is inserted, every lookup of one address gives the same answer,
/// whoever asks and how often.
pub proof fn lemma_lookup_deterministic(
    first_cache: Cache,
    second_cache: Cache,
    ethernet_address: EthernetAddress,
    first: Option<Ipv4Addr>,
    second: Option<Ipv4Addr>,
)
    requires
        first_cache@ == second_cache@,
        call_ensures(Cache::address, (&first_cache, &ethernet_address), first),
        call_ensures(Cache::address, (&second_cache, &ethernet_address), second),
    ensures
        first == second,
{
    if first is Some {
        Ipv4Addr::lemma_view_determines_address(first->0, second->0);
    }
}

} // verus!
