//! IPv4 addresses as four bytes in network order.

use crate::text::{decimal, push_decimal};
use vstd::prelude::*;
use vstd::string::StringExecFns;

verus! {

/// An IPv4 address or mask. Its view is the four bytes, most significant
/// first.
#[derive(Debug, Clone, Copy, PartialEq, Eq)]
pub struct Ipv4Address {
    octets: [u8; 4],
}

/// Four bytes read as one big-endian 32-bit number.
pub open spec fn ipv4_bits(octets: Seq<u8>) -> u32 {
    (octets[0] as int * 0x100_0000 + octets[1] as int * 0x1_0000 + octets[2] as int * 0x100
        + octets[3] as int) as u32
}

/// The dotted-decimal form `a.b.c.d`.
pub open spec fn ipv4_text(octets: Seq<u8>) -> Seq<char> {
    decimal(octets[0]) + seq!['.'] + decimal(octets[1]) + seq!['.'] + decimal(octets[2]) + seq![
        '.',
    ] + decimal(octets[3])
}

impl Ipv4Address {
    /// The four bytes as an array.
    pub closed spec fn spec_octets(&self) -> [u8; 4] {
        self.octets
    }

    /// The address whose bytes are the first four of `bytes`.
    pub closed spec fn from_octets(bytes: Seq<u8>) -> Ipv4Address {
        Ipv4Address { octets: [bytes[0], bytes[1], bytes[2], bytes[3]] }
    }

    pub fn new(a: u8, b: u8, c: u8, d: u8) -> (ip: Self)
        ensures
            ip@ == seq![a, b, c, d],
            ip == Self::from_octets(seq![a, b, c, d]),
    {
        let ip = Ipv4Address { octets: [a, b, c, d] };
        assert(ip@ =~= seq![a, b, c, d]);
        ip
    }

    #[verifier::when_used_as_spec(spec_octets)]
    pub fn octets(&self) -> (octets: [u8; 4])
        ensures
            octets == self.spec_octets(),
    {
        self.octets
    }

    /// The address as one number, the first byte the most significant.
    pub fn to_bits(&self) -> (bits: u32)
        ensures
            bits == ipv4_bits(self@),
    {
        (self.octets[0] as u32) * 0x100_0000 + (self.octets[1] as u32) * 0x1_0000 + (
        self.octets[2] as u32) * 0x100 + (self.octets[3] as u32)
    }

    /// The address in dotted decimal.
    pub fn to_string(&self) -> (s: String)
        ensures
            s@ == ipv4_text(self@),
    {
        let mut out = String::new();
        proof {
            reveal_strlit(".");
            assert("."@ =~= seq!['.']);
        }
        push_decimal(&mut out, self.octets[0]);
        out.append(".");
        push_decimal(&mut out, self.octets[1]);
        out.append(".");
        push_decimal(&mut out, self.octets[2]);
        out.append(".");
        push_decimal(&mut out, self.octets[3]);
        assert(out@ =~= ipv4_text(self@));
        out
    }

    /// `from_octets` keeps the four bytes it is given.
    pub proof fn lemma_from_octets(bytes: Seq<u8>)
        requires
            bytes.len() == 4,
        ensures
            Self::from_octets(bytes)@ == bytes,
    {
        assert(Self::from_octets(bytes)@ =~= bytes);
    }

    /// Two addresses with the same bytes are the same address.
    pub proof fn lemma_view_injective(a: Ipv4Address, b: Ipv4Address)
        requires
            a@ == b@,
        ensures
            a == b,
    {
        assert(a.octets =~= b.octets);
    }

    /// Two addresses are the same number exactly when they are the same
    /// address.
    pub proof fn lemma_bits_injective(a: Ipv4Address, b: Ipv4Address)
        ensures
            ipv4_bits(a@) == ipv4_bits(b@) <==> a == b,
    {
        if ipv4_bits(a@) == ipv4_bits(b@) {
            assert(a@ =~= b@);
            Self::lemma_view_injective(a, b);
        }
    }
}

impl View for Ipv4Address {
    type V = Seq<u8>;

    open spec fn view(&self) -> Seq<u8> {
        self.spec_octets()@
    }
}

} // verus!
