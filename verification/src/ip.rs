//! IPv4 protocol addresses.
use vstd::prelude::*;

verus! {

/// An IPv4 address.
#[derive(Debug, Copy, Clone, Eq)]
pub struct Ipv4Addr([u8; 4]);

impl View for Ipv4Addr {
    type V = Seq<u8>;

    /// The four bytes of the address in wire order.
    closed spec fn view(&self) -> Seq<u8> {
        self.0@
    }
}

impl Ipv4Addr {
    /// Takes the address from the first four bytes of `buf`.
    pub fn from_slice(buf: &[u8]) -> (address: Ipv4Addr)
        requires
            buf@.len() >= 4,
        ensures
            address@ == buf@.subrange(0, 4),
    {
        Ipv4Addr([buf[0], buf[1], buf[2], buf[3]])
    }

    /// The four bytes of the address in wire order.
    pub fn as_bytes(&self) -> (bytes: [u8; 4])
        ensures
            bytes@ == self@,
    {
        self.0
    }

    /// Every address has exactly four bytes.
    pub proof fn lemma_len(self)
        ensures
            self@.len() == 4,
    {
    }

    /// Two addresses with the same bytes are the same address.
    pub proof fn lemma_view_determines_address(a: Ipv4Addr, b: Ipv4Addr)
        requires
            a@ == b@,
        ensures
            a == b,
    {
        assert(a.0 =~= b.0);
    }
}

impl PartialEq for Ipv4Addr {
    fn eq(&self, other: &Ipv4Addr) -> (equal: bool) {
        let equal = self.0[0] == other.0[0] && self.0[1] == other.0[1] && self.0[2] == other.0[2]
            && self.0[3] == other.0[3];
        proof {
            if equal {
                assert(self@ =~= other@);
            }
        }
        equal
    }
}

impl vstd::std_specs::cmp::PartialEqSpecImpl for Ipv4Addr {
    open spec fn obeys_eq_spec() -> bool {
        true
    }

    open spec fn eq_spec(&self, other: &Ipv4Addr) -> bool {
        self@ == other@
    }
}

} // verus!
