//! Hardware addresses as they appear in message headers.

use crate::text::{hex_pair, push_hex_pair};
use vstd::prelude::*;
use vstd::string::StringExecFns;

verus! {

/// Number of bytes in a hardware address.
pub const MAC_LEN: usize = 6;

/// A 6-byte hardware address. Its view is the six bytes in wire order.
#[derive(Debug, Clone, Copy, PartialEq, Eq)]
pub struct MacAddress {
    addr: [u8; 6],
}

/// The wildcard address that requests carry: six bytes `0xFF`.
pub open spec fn broadcast_mac() -> Seq<u8> {
    seq![0xFFu8, 0xFFu8, 0xFFu8, 0xFFu8, 0xFFu8, 0xFFu8]
}

/// The textual form of a hardware address, `AA:BB:CC:DD:EE:FF`: each byte as
/// an upper-case hexadecimal pair, a colon between each two.
pub open spec fn mac_text(mac: Seq<u8>) -> Seq<char> {
    hex_pair(mac[0]) + seq![':'] + hex_pair(mac[1]) + seq![':'] + hex_pair(mac[2]) + seq![':']
        + hex_pair(mac[3]) + seq![':'] + hex_pair(mac[4]) + seq![':'] + hex_pair(mac[5])
}

/// The text of the first `n` bytes of `mac`, which the formatting loop has
/// written after `n` rounds.
spec fn mac_text_prefix(mac: Seq<u8>, n: nat) -> Seq<char>
    decreases n,
{
    if n == 0 {
        Seq::empty()
    } else if n == 1 {
        hex_pair(mac[0])
    } else {
        mac_text_prefix(mac, (n - 1) as nat) + seq![':'] + hex_pair(mac[n - 1])
    }
}

impl MacAddress {
    /// The six bytes as an array.
    pub closed spec fn octets(self) -> [u8; 6] {
        self.addr
    }

    /// The address whose bytes are the first six of `bytes`.
    pub closed spec fn from_octets(bytes: Seq<u8>) -> MacAddress {
        MacAddress { addr: [bytes[0], bytes[1], bytes[2], bytes[3], bytes[4], bytes[5]] }
    }

    /// `from_octets` keeps the six bytes it is given.
    pub proof fn lemma_from_octets(bytes: Seq<u8>)
        requires
            bytes.len() == MAC_LEN,
        ensures
            Self::from_octets(bytes)@ == bytes,
    {
        assert(Self::from_octets(bytes)@ =~= bytes);
    }

    pub fn new(addr: [u8; 6]) -> (mac: Self)
        ensures
            mac@ == addr@,
    {
        MacAddress { addr }
    }

    pub fn addr(&self) -> (bytes: &[u8])
        ensures
            bytes@ == self@,
    {
        &self.addr
    }

    /// Colon-separated upper-case hexadecimal pairs.
    pub fn to_string(&self) -> (s: String)
        ensures
            s@ == mac_text(self@),
    {
        let mut out = String::new();
        let mut i: usize = 0;
        while i < 6
            invariant
                i <= 6,
                out@ == mac_text_prefix(self@, i as nat),
            decreases 6 - i,
        {
            if i > 0 {
                out.append(":");
                proof {
                    reveal_strlit(":");
                    assert(":"@ =~= seq![':']);
                }
            }
            push_hex_pair(&mut out, self.addr[i]);
            i = i + 1;
        }
        proof {
            reveal_with_fuel(mac_text_prefix, 7);
        }
        out
    }

    /// Two addresses with the same bytes are the same address.
    pub proof fn lemma_view_injective(a: MacAddress, b: MacAddress)
        requires
            a@ == b@,
        ensures
            a == b,
    {
        assert(a.addr =~= b.addr);
    }
}

impl View for MacAddress {
    type V = Seq<u8>;

    open spec fn view(&self) -> Seq<u8> {
        self.octets()@
    }
}

impl Default for MacAddress {
    /// The broadcast sentinel `FF:FF:FF:FF:FF:FF`.
    fn default() -> (mac: Self)
        ensures
            mac@ == broadcast_mac(),
    {
        let mac = MacAddress { addr: [0xFF, 0xFF, 0xFF, 0xFF, 0xFF, 0xFF] };
        assert(mac@ =~= broadcast_mac());
        mac
    }
}

} // verus!
