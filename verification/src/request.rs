//! The two requests that a controller understands: identify and reboot.

use crate::header::{be_u16, MsgHeader, HEADER_LEN, IDENTIFY_CMD, PROLOGIX_MAGIC, REBOOT_CMD};
use crate::mac::{broadcast_mac, MacAddress};
use rand::Rng;
use vstd::prelude::*;

verus! {

/// Number of bytes in a reboot request: the header and four bytes of payload.
pub const REBOOT_REQUEST_LEN: usize = 16;

/// What the controller is to start after a reboot.
#[derive(Debug, Clone, Copy, PartialEq, Eq)]
pub enum RebootType {
    Bootloader,
    Reset,
}

impl RebootType {
    /// The byte that stands for this kind of reboot on the wire.
    pub open spec fn code(self) -> u8 {
        match self {
            RebootType::Bootloader => 0,
            RebootType::Reset => 1,
        }
    }

    pub fn to_u8(&self) -> (code: u8)
        ensures
            code == self.code(),
    {
        match self {
            Self::Bootloader => 0,
            Self::Reset => 1,
        }
    }
}

/// The 12 bytes of a header for command `id` with sequence number `seq`,
/// addressed to every controller.
pub open spec fn broadcast_header(id: u8, seq: u16) -> Seq<u8> {
    seq![PROLOGIX_MAGIC, id, (seq / 256) as u8, (seq % 256) as u8] + broadcast_mac() + seq![
        0u8,
        0u8,
    ]
}

/// The identify request with sequence number `seq`: a header and nothing
/// else.
pub open spec fn discovery_request(seq: u16) -> Seq<u8> {
    broadcast_header(IDENTIFY_CMD, seq)
}

/// The reboot request with sequence number `seq`: a header, then the code of
/// the reboot and three zero bytes.
pub open spec fn reboot_request(seq: u16, reboot_type: RebootType) -> Seq<u8> {
    broadcast_header(REBOOT_CMD, seq) + seq![reboot_type.code(), 0u8, 0u8, 0u8]
}

/// Whether `bytes` is an identify request, whatever its sequence number:
/// 12 bytes that begin `5A 00` and end in six bytes `FF` and two bytes `00`.
pub open spec fn is_discovery_request(bytes: Seq<u8>) -> bool {
    &&& bytes.len() == HEADER_LEN
    &&& bytes.subrange(0, 2) == seq![0x5Au8, 0x00u8]
    &&& bytes.subrange(4, 12) == seq![0xFFu8, 0xFFu8, 0xFFu8, 0xFFu8, 0xFFu8, 0xFFu8, 0x00u8, 0x00u8]
}

/// Whether `bytes` is a request for the reboot `reboot_type`, whatever its
/// sequence number: 16 bytes that begin `5A 12`, go on after the sequence
/// number with six bytes `FF` and two bytes `00`, and end `[code, 0, 0, 0]`.
pub open spec fn is_reboot_request(bytes: Seq<u8>, reboot_type: RebootType) -> bool {
    &&& bytes.len() == REBOOT_REQUEST_LEN
    &&& bytes.subrange(0, 2) == seq![0x5Au8, 0x12u8]
    &&& bytes.subrange(4, 12) == seq![0xFFu8, 0xFFu8, 0xFFu8, 0xFFu8, 0xFFu8, 0xFFu8, 0x00u8, 0x00u8]
    &&& bytes.subrange(12, 16) == seq![reboot_type.code(), 0u8, 0u8, 0u8]
}

/// A fresh sequence number from `rand::thread_rng().gen::<u16>()`, the
/// thread-local generator that the operating system seeds. Nothing is claimed
/// of the number: any `u16` may come back, and two calls may differ. The
/// generator panics where the operating system hands it no entropy, at its
/// first use in a thread or when it reseeds.
#[verifier::external_body]
fn random_sequence() -> (seq: u16) {
    rand::thread_rng().gen::<u16>()
}

/// The identify request with the given sequence number.
pub fn build_discovery_with(seq: u16) -> (request: Vec<u8>)
    ensures
        request@ == discovery_request(seq),
        is_discovery_request(request@),
{
    let header = MsgHeader::new(PROLOGIX_MAGIC, IDENTIFY_CMD, seq, MacAddress::default());
    let request = header.to_bytes();
    proof {
        assert(request@ =~= discovery_request(seq));
        lemma_discovery_request_shape(seq);
    }
    request
}

/// An identify request with a fresh random sequence number.
pub fn build_discovery() -> (request: Vec<u8>)
    ensures
        exists|seq: u16| request@ == discovery_request(seq),
        is_discovery_request(request@),
{
    let seq = random_sequence();
    build_discovery_with(seq)
}

/// The reboot request with the given sequence number.
pub fn build_reboot_with(seq: u16, reboot_type: &RebootType) -> (request: Vec<u8>)
    ensures
        request@ == reboot_request(seq, *reboot_type),
        is_reboot_request(request@, *reboot_type),
{
    let header = MsgHeader::new(PROLOGIX_MAGIC, REBOOT_CMD, seq, MacAddress::default());
    let mut bytes = header.to_bytes();
    bytes.push(reboot_type.to_u8());
    bytes.push(0);
    bytes.push(0);
    bytes.push(0);
    proof {
        assert(bytes@ =~= reboot_request(seq, *reboot_type));
        lemma_reboot_request_shape(seq, *reboot_type);
    }
    bytes
}

/// A reboot request with a fresh random sequence number.
pub fn build_reboot(reboot_type: &RebootType) -> (request: Vec<u8>)
    ensures
        exists|seq: u16| request@ == reboot_request(seq, *reboot_type),
        is_reboot_request(request@, *reboot_type),
{
    let seq = random_sequence();
    build_reboot_with(seq, reboot_type)
}

/// Every identify request has the fixed shape, whatever its sequence number.
pub proof fn lemma_discovery_request_shape(seq: u16)
    ensures
        is_discovery_request(discovery_request(seq)),
{
    let bytes = discovery_request(seq);
    assert(bytes.subrange(0, 2) =~= seq![0x5Au8, 0x00u8]);
    assert(bytes.subrange(4, 12) =~= seq![
        0xFFu8,
        0xFFu8,
        0xFFu8,
        0xFFu8,
        0xFFu8,
        0xFFu8,
        0x00u8,
        0x00u8,
    ]);
}

/// Every buffer of that shape is the identify request of the sequence number
/// that its third and fourth byte spell.
pub proof fn lemma_discovery_request_complete(bytes: Seq<u8>)
    requires
        is_discovery_request(bytes),
    ensures
        bytes == discovery_request(be_u16(bytes[2], bytes[3])),
{
    let head = bytes.subrange(0, 2);
    let tail = bytes.subrange(4, 12);
    assert(bytes[0] == head[0] && bytes[1] == head[1]);
    assert forall|i: int| 4 <= i < 12 implies bytes[i] == #[trigger] tail[i - 4] by {}
    assert(bytes[4] == tail[0] && bytes[5] == tail[1] && bytes[6] == tail[2] && bytes[7] == tail[3]
        && bytes[8] == tail[4] && bytes[9] == tail[5] && bytes[10] == tail[6] && bytes[11]
        == tail[7]);
    assert(bytes =~= discovery_request(be_u16(bytes[2], bytes[3])));
}

/// Every reboot request has the fixed shape, whatever its sequence number.
pub proof fn lemma_reboot_request_shape(seq: u16, reboot_type: RebootType)
    ensures
        is_reboot_request(reboot_request(seq, reboot_type), reboot_type),
{
    let bytes = reboot_request(seq, reboot_type);
    assert(bytes.subrange(0, 2) =~= seq![0x5Au8, 0x12u8]);
    assert(bytes.subrange(4, 12) =~= seq![
        0xFFu8,
        0xFFu8,
        0xFFu8,
        0xFFu8,
        0xFFu8,
        0xFFu8,
        0x00u8,
        0x00u8,
    ]);
    assert(bytes.subrange(12, 16) =~= seq![reboot_type.code(), 0u8, 0u8, 0u8]);
}

/// A request opens with the header that it was built from.
pub proof fn lemma_request_header(id: u8, seq: u16)
    ensures
        MsgHeader::decoding(broadcast_header(id, seq)).magic() == PROLOGIX_MAGIC,
        MsgHeader::decoding(broadcast_header(id, seq)).id() == id,
        MsgHeader::decoding(broadcast_header(id, seq)).seq() == seq,
        MsgHeader::decoding(broadcast_header(id, seq)).mac_addr()@ == broadcast_mac(),
{
    let bytes = broadcast_header(id, seq);
    MsgHeader::lemma_decoding(bytes);
    assert(bytes.subrange(4, 10) =~= broadcast_mac());
}

} // verus!
