//! The 12-byte envelope that opens every request and every reply.

use crate::mac::MacAddress;
use vstd::prelude::*;

verus! {

/// First byte of every message.
pub const PROLOGIX_MAGIC: u8 = 0x5A;

/// Command byte of an identify request and of its reply.
pub const IDENTIFY_CMD: u8 = 0x00;

/// Command byte of a reboot request.
pub const REBOOT_CMD: u8 = 0x12;

/// Number of bytes in a header.
pub const HEADER_LEN: usize = 12;

/// The value of two bytes read as a big-endian integer.
pub open spec fn be_u16(hi: u8, lo: u8) -> u16 {
    (hi as int * 256 + lo as int) as u16
}

/// Reads two bytes as a big-endian integer.
pub fn u16_from_be(hi: u8, lo: u8) -> (v: u16)
    ensures
        v == be_u16(hi, lo),
        v as int == hi as int * 256 + lo as int,
{
    (hi as u16) * 256 + (lo as u16)
}

/// The message envelope: magic byte, command, sequence nonce and hardware
/// address. The two reserved bytes that close it on the wire are always zero
/// and are not stored.
#[derive(Debug, Clone, Copy, PartialEq, Eq)]
pub struct MsgHeader {
    magic: u8,
    id: u8,
    seq: u16,
    mac_addr: MacAddress,
}

impl MsgHeader {
    pub closed spec fn spec_magic(&self) -> u8 {
        self.magic
    }

    pub closed spec fn spec_id(&self) -> u8 {
        self.id
    }

    pub closed spec fn spec_seq(&self) -> u16 {
        self.seq
    }

    pub closed spec fn spec_mac_addr(&self) -> MacAddress {
        self.mac_addr
    }

    /// The 12 bytes that stand for this header on the wire:
    /// `[magic, id, seq_hi, seq_lo, mac(6), 0, 0]`.
    pub open spec fn encoding(&self) -> Seq<u8> {
        seq![self.magic(), self.id(), (self.seq() / 256) as u8, (self.seq() % 256) as u8]
            + self.mac_addr()@ + seq![0u8, 0u8]
    }

    /// The header that the first 12 bytes of `bytes` stand for. No byte is
    /// validated: the magic is whatever `bytes[0]` holds, the reserved bytes
    /// are not looked at.
    pub closed spec fn decoding(bytes: Seq<u8>) -> MsgHeader {
        MsgHeader {
            magic: bytes[0],
            id: bytes[1],
            seq: be_u16(bytes[2], bytes[3]),
            mac_addr: MacAddress::from_octets(bytes.subrange(4, 10)),
        }
    }

    pub fn new(magic: u8, id: u8, seq: u16, mac_addr: MacAddress) -> (header: Self)
        ensures
            header.magic() == magic,
            header.id() == id,
            header.seq() == seq,
            header.mac_addr() == mac_addr,
    {
        MsgHeader { magic, id, seq, mac_addr }
    }

    #[verifier::when_used_as_spec(spec_magic)]
    pub fn magic(&self) -> (magic: u8)
        ensures
            magic == self.spec_magic(),
    {
        self.magic
    }

    #[verifier::when_used_as_spec(spec_id)]
    pub fn id(&self) -> (id: u8)
        ensures
            id == self.spec_id(),
    {
        self.id
    }

    #[verifier::when_used_as_spec(spec_seq)]
    pub fn seq(&self) -> (seq: u16)
        ensures
            seq == self.spec_seq(),
    {
        self.seq
    }

    #[verifier::when_used_as_spec(spec_mac_addr)]
    pub fn mac_addr(&self) -> (mac: MacAddress)
        ensures
            mac == self.spec_mac_addr(),
    {
        self.mac_addr
    }

    pub fn to_bytes(&self) -> (bytes: Vec<u8>)
        ensures
            bytes@ == self.encoding(),
            bytes@.len() == HEADER_LEN,
    {
        let mut header: Vec<u8> = Vec::new();
        header.push(self.magic);
        header.push(self.id);
        header.push((self.seq / 256) as u8);
        header.push((self.seq % 256) as u8);
        header.extend_from_slice(self.mac_addr.addr());
        header.push(0x00);
        header.push(0x00);
        assert(header@ =~= self.encoding());
        header
    }

    pub fn from_bytes(bytes: &[u8]) -> (header: Self)
        requires
            bytes@.len() >= HEADER_LEN,
        ensures
            header == Self::decoding(bytes@),
            header.magic() == bytes@[0],
            header.id() == bytes@[1],
            header.seq() == be_u16(bytes@[2], bytes@[3]),
            header.mac_addr()@ == bytes@.subrange(4, 10),
    {
        let seq = u16_from_be(bytes[2], bytes[3]);
        let mac_addr: [u8; 6] = [bytes[4], bytes[5], bytes[6], bytes[7], bytes[8], bytes[9]];
        assert(mac_addr@ =~= bytes@.subrange(4, 10));
        let header = MsgHeader { magic: bytes[0], id: bytes[1], seq, mac_addr: MacAddress::new(mac_addr) };
        proof {
            MacAddress::lemma_from_octets(bytes@.subrange(4, 10));
            MacAddress::lemma_view_injective(
                header.mac_addr,
                MacAddress::from_octets(bytes@.subrange(4, 10)),
            );
        }
        header
    }

    /// What `decoding` yields, field by field.
    pub proof fn lemma_decoding(bytes: Seq<u8>)
        requires
            bytes.len() >= HEADER_LEN,
        ensures
            Self::decoding(bytes).magic() == bytes[0],
            Self::decoding(bytes).id() == bytes[1],
            Self::decoding(bytes).seq() == be_u16(bytes[2], bytes[3]),
            Self::decoding(bytes).mac_addr()@ == bytes.subrange(4, 10),
    {
        MacAddress::lemma_from_octets(bytes.subrange(4, 10));
    }

    /// Two headers with the same four fields are the same header.
    pub proof fn lemma_fields_determine(a: MsgHeader, b: MsgHeader)
        requires
            a.magic() == b.magic(),
            a.id() == b.id(),
            a.seq() == b.seq(),
            a.mac_addr() == b.mac_addr(),
        ensures
            a == b,
    {
    }

    /// Decoding undoes encoding: the bytes of a header stand for that header.
    pub proof fn lemma_decode_encode(header: MsgHeader)
        ensures
            Self::decoding(header.encoding()) == header,
    {
        let bytes = header.encoding();
        assert(bytes.subrange(4, 10) =~= header.mac_addr()@);
        MacAddress::lemma_from_octets(bytes.subrange(4, 10));
        MacAddress::lemma_view_injective(
            MacAddress::from_octets(bytes.subrange(4, 10)),
            header.mac_addr,
        );
    }

    /// Encoding undoes decoding on every 12-byte envelope whose reserved
    /// bytes are zero.
    pub proof fn lemma_encode_decode(bytes: Seq<u8>)
        requires
            bytes.len() >= HEADER_LEN,
            bytes[10] == 0,
            bytes[11] == 0,
        ensures
            Self::decoding(bytes).encoding() == bytes.subrange(0, 12),
    {
        let header = Self::decoding(bytes);
        MacAddress::lemma_from_octets(bytes.subrange(4, 10));
        assert(header.encoding() =~= bytes.subrange(0, 12));
    }
}

} // verus!
