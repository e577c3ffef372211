//! The snapshot of a controller's state that an identify reply carries.

use crate::error::Error;
use crate::header::{be_u16, u16_from_be, MsgHeader, PROLOGIX_MAGIC};
use crate::ipv4::Ipv4Address;
use crate::mac::MacAddress;
use crate::status::{ControllerAlert, ControllerIpType, ControllerMode};
use crate::version::ControllerVersion;
use vstd::prelude::*;

verus! {

/// Number of bytes in an identify reply: the header and 64 bytes of fields.
pub const REPLY_LEN: usize = 76;

/// Number of bytes in the device name that closes a reply.
pub const DEVICE_NAME_LEN: usize = 32;

/// The longest uptime that a reply can state, in seconds.
pub const MAX_UPTIME_SECS: u64 = 5_663_157_555;

/// Whether `bytes` has the structure of an identify reply: at least 76 bytes,
/// the first of them the magic byte.
pub open spec fn is_reply(bytes: Seq<u8>) -> bool {
    bytes.len() >= REPLY_LEN && bytes[0] == PROLOGIX_MAGIC
}

/// An uptime in seconds from its four wire fields.
pub open spec fn uptime_secs(days: u16, hours: u8, minutes: u8, seconds: u8) -> int {
    days as int * 86400 + hours as int * 3600 + minutes as int * 60 + seconds as int
}

/// The detail of the failure on a buffer shorter than a reply.
pub open spec fn too_short_text() -> Seq<char> {
    "Failed to parse ControllerInfo"@
}

/// The detail of the failure on a buffer that does not open with the magic
/// byte.
pub open spec fn bad_magic_text() -> Seq<char> {
    "Incorrect magic number at start of message"@
}

/// The detail of the failure that decoding `bytes` ends in, where it fails:
/// length is tested before the magic byte.
pub open spec fn parse_failure_text(bytes: Seq<u8>) -> Seq<char> {
    if bytes.len() < REPLY_LEN {
        too_short_text()
    } else {
        bad_magic_text()
    }
}

/// One controller as one identify reply describes it. A value exists only as
/// the decoding of a buffer that `is_reply` accepts.
#[derive(Debug, Clone, Copy, PartialEq, Eq)]
pub struct ControllerInfo {
    mac_addr: MacAddress,
    uptime: u64,
    mode: ControllerMode,
    alert: ControllerAlert,
    ip_type: ControllerIpType,
    ip_addr: Ipv4Address,
    ip_netmask: Ipv4Address,
    ip_gateway: Ipv4Address,
    app_version: ControllerVersion,
    boot_version: ControllerVersion,
    hardware_version: ControllerVersion,
    device_name: [u8; 32],
}

impl ControllerInfo {
    pub closed spec fn spec_mac_addr(&self) -> &MacAddress {
        &self.mac_addr
    }

    pub closed spec fn spec_uptime(&self) -> u64 {
        self.uptime
    }

    pub closed spec fn spec_mode(&self) -> &ControllerMode {
        &self.mode
    }

    pub closed spec fn spec_alert(&self) -> &ControllerAlert {
        &self.alert
    }

    pub closed spec fn spec_ip_type(&self) -> &ControllerIpType {
        &self.ip_type
    }

    pub closed spec fn spec_ip_addr(&self) -> &Ipv4Address {
        &self.ip_addr
    }

    pub closed spec fn spec_ip_netmask(&self) -> &Ipv4Address {
        &self.ip_netmask
    }

    pub closed spec fn spec_ip_gateway(&self) -> &Ipv4Address {
        &self.ip_gateway
    }

    pub closed spec fn spec_app_verion(&self) -> &ControllerVersion {
        &self.app_version
    }

    pub closed spec fn spec_boot_verion(&self) -> &ControllerVersion {
        &self.boot_version
    }

    pub closed spec fn spec_hardware_version(&self) -> &ControllerVersion {
        &self.hardware_version
    }

    pub closed spec fn spec_device_name(&self) -> [u8; 32] {
        self.device_name
    }

    /// Every value is the decoding of some well-formed reply.
    #[verifier::type_invariant]
    closed spec fn decoded_from_reply(&self) -> bool {
        exists|bytes: Seq<u8>| is_reply(bytes) && *self == #[trigger] Self::decoding(bytes)
    }

    /// The snapshot that the reply `bytes` stands for: fixed-width reads at
    /// fixed offsets, multi-byte numbers big-endian.
    pub closed spec fn decoding(bytes: Seq<u8>) -> ControllerInfo {
        ControllerInfo {
            mac_addr: MsgHeader::decoding(bytes).mac_addr(),
            uptime: uptime_secs(be_u16(bytes[12], bytes[13]), bytes[14], bytes[15], bytes[16]) as u64,
            mode: ControllerMode::of_byte(bytes[17]),
            alert: ControllerAlert::of_byte(bytes[18]),
            ip_type: ControllerIpType::of_byte(bytes[19]),
            ip_addr: Ipv4Address::from_octets(bytes.subrange(20, 24)),
            ip_netmask: Ipv4Address::from_octets(bytes.subrange(24, 28)),
            ip_gateway: Ipv4Address::from_octets(bytes.subrange(28, 32)),
            app_version: ControllerVersion::from_quad(bytes.subrange(32, 36)),
            boot_version: ControllerVersion::from_quad(bytes.subrange(36, 40)),
            hardware_version: ControllerVersion::from_quad(bytes.subrange(40, 44)),
            device_name: [
                bytes[44], bytes[45], bytes[46], bytes[47], bytes[48], bytes[49], bytes[50], bytes[51],
                bytes[52], bytes[53], bytes[54], bytes[55], bytes[56], bytes[57], bytes[58], bytes[59],
                bytes[60], bytes[61], bytes[62], bytes[63], bytes[64], bytes[65], bytes[66], bytes[67],
                bytes[68], bytes[69], bytes[70], bytes[71], bytes[72], bytes[73], bytes[74], bytes[75],
            ],
        }
    }

    /// What each field of this snapshot is, were it decoded from `bytes`:
    ///
    /// | bytes     | field                              |
    /// |-----------|------------------------------------|
    /// | `[4,10)`  | hardware address                   |
    /// | `[12,14)` | uptime days, big-endian            |
    /// | `[14]`    | uptime hours                       |
    /// | `[15]`    | uptime minutes                     |
    /// | `[16]`    | uptime seconds                     |
    /// | `[17]`    | mode                               |
    /// | `[18]`    | alert                              |
    /// | `[19]`    | kind of IP address                 |
    /// | `[20,24)` | IP address                         |
    /// | `[24,28)` | netmask                            |
    /// | `[28,32)` | gateway                            |
    /// | `[32,36)` | application version                |
    /// | `[36,40)` | bootloader version                 |
    /// | `[40,44)` | hardware version                   |
    /// | `[44,76)` | device name                        |
    pub open spec fn reads(&self, bytes: Seq<u8>) -> bool {
        &&& self.mac_addr()@ == bytes.subrange(4, 10)
        &&& self.uptime() == uptime_secs(
            be_u16(bytes[12], bytes[13]),
            bytes[14],
            bytes[15],
            bytes[16],
        )
        &&& self.mode() == ControllerMode::of_byte(bytes[17])
        &&& self.alert() == ControllerAlert::of_byte(bytes[18])
        &&& self.ip_type() == ControllerIpType::of_byte(bytes[19])
        &&& self.ip_addr()@ == bytes.subrange(20, 24)
        &&& self.ip_netmask()@ == bytes.subrange(24, 28)
        &&& self.ip_gateway()@ == bytes.subrange(28, 32)
        &&& self.app_verion() == ControllerVersion::from_quad(bytes.subrange(32, 36))
        &&& self.boot_verion() == ControllerVersion::from_quad(bytes.subrange(36, 40))
        &&& self.hardware_version() == ControllerVersion::from_quad(bytes.subrange(40, 44))
        &&& self.spec_device_name()@ == bytes.subrange(44, 76)
    }

    /// Decodes one identify reply.
    ///
    /// Fails on a buffer shorter than 76 bytes, and on one that does not open
    /// with the magic byte; on every other buffer it yields the snapshot that
    /// the first 76 bytes stand for.
    pub fn from_bytes(msg: &[u8]) -> (result: Result<ControllerInfo, Error>)
        ensures
            result is Ok <==> is_reply(msg@),
            result matches Ok(info) ==> info == Self::decoding(msg@) && info.reads(msg@),
            result matches Err(e) ==> e.is_parse_error(parse_failure_text(msg@)),
            msg@.len() < REPLY_LEN ==> (result matches Err(e) && e.is_parse_error(
                too_short_text(),
            )),
            msg@.len() >= REPLY_LEN && msg@[0] != PROLOGIX_MAGIC ==> (result matches Err(e)
                && e.is_parse_error(bad_magic_text())),
    {
        if msg.len() < REPLY_LEN {
            return Err(Error::ParseError { info: "Failed to parse ControllerInfo".to_owned() });
        }
        let header = MsgHeader::from_bytes(msg);
        if header.magic() != PROLOGIX_MAGIC {
            return Err(
                Error::ParseError { info: "Incorrect magic number at start of message".to_owned() },
            );
        }
        let uptime_days: u64 = u16_from_be(msg[12], msg[13]) as u64 * 24 * 3600;
        let mut device_name: [u8; 32] = [0u8; 32];
        let mut i: usize = 0;
        while i < DEVICE_NAME_LEN
            invariant
                i <= DEVICE_NAME_LEN,
                msg@.len() >= REPLY_LEN,
                forall|j: int| 0 <= j < i ==> device_name@[j] == msg@[44 + j],
            decreases DEVICE_NAME_LEN - i,
        {
            device_name[i] = msg[44 + i];
            i = i + 1;
        }
        proof {
            Self::lemma_decoding_reads(msg@);
            assert(device_name@ =~= msg@.subrange(44, 76));
            assert(device_name =~= Self::decoding(msg@).device_name);
            assert(msg@.subrange(20, 24) =~= seq![msg@[20], msg@[21], msg@[22], msg@[23]]);
            assert(msg@.subrange(24, 28) =~= seq![msg@[24], msg@[25], msg@[26], msg@[27]]);
            assert(msg@.subrange(28, 32) =~= seq![msg@[28], msg@[29], msg@[30], msg@[31]]);
            assert(msg@.subrange(32, 36) =~= seq![msg@[32], msg@[33], msg@[34], msg@[35]]);
            assert(msg@.subrange(36, 40) =~= seq![msg@[36], msg@[37], msg@[38], msg@[39]]);
            assert(msg@.subrange(40, 44) =~= seq![msg@[40], msg@[41], msg@[42], msg@[43]]);
        }
        let info = ControllerInfo {
            mac_addr: header.mac_addr(),
            uptime: uptime_days + msg[14] as u64 * 3600 + msg[15] as u64 * 60 + msg[16] as u64,
            mode: ControllerMode::from(msg[17]),
            alert: ControllerAlert::from(msg[18]),
            ip_type: ControllerIpType::from(msg[19]),
            ip_addr: Ipv4Address::new(msg[20], msg[21], msg[22], msg[23]),
            ip_netmask: Ipv4Address::new(msg[24], msg[25], msg[26], msg[27]),
            ip_gateway: Ipv4Address::new(msg[28], msg[29], msg[30], msg[31]),
            app_version: ControllerVersion::new(msg[32], msg[33], msg[34], msg[35]),
            boot_version: ControllerVersion::new(msg[36], msg[37], msg[38], msg[39]),
            hardware_version: ControllerVersion::new(msg[40], msg[41], msg[42], msg[43]),
            device_name,
        };
        assert(info == Self::decoding(msg@));
        Ok(info)
    }

    #[verifier::when_used_as_spec(spec_mac_addr)]
    pub fn mac_addr(&self) -> (mac: &MacAddress)
        ensures
            mac == self.spec_mac_addr(),
    {
        &self.mac_addr
    }

    /// The time since the controller started, in whole seconds.
    #[verifier::when_used_as_spec(spec_uptime)]
    pub fn uptime(&self) -> (secs: u64)
        ensures
            secs == self.spec_uptime(),
            secs <= MAX_UPTIME_SECS,
    {
        proof {
            use_type_invariant(self);
        }
        self.uptime
    }

    #[verifier::when_used_as_spec(spec_mode)]
    pub fn mode(&self) -> (mode: &ControllerMode)
        ensures
            mode == self.spec_mode(),
    {
        &self.mode
    }

    #[verifier::when_used_as_spec(spec_alert)]
    pub fn alert(&self) -> (alert: &ControllerAlert)
        ensures
            alert == self.spec_alert(),
    {
        &self.alert
    }

    #[verifier::when_used_as_spec(spec_ip_type)]
    pub fn ip_type(&self) -> (ip_type: &ControllerIpType)
        ensures
            ip_type == self.spec_ip_type(),
    {
        &self.ip_type
    }

    #[verifier::when_used_as_spec(spec_ip_addr)]
    pub fn ip_addr(&self) -> (ip: &Ipv4Address)
        ensures
            ip == self.spec_ip_addr(),
    {
        &self.ip_addr
    }

    #[verifier::when_used_as_spec(spec_ip_netmask)]
    pub fn ip_netmask(&self) -> (mask: &Ipv4Address)
        ensures
            mask == self.spec_ip_netmask(),
    {
        &self.ip_netmask
    }

    #[verifier::when_used_as_spec(spec_ip_gateway)]
    pub fn ip_gateway(&self) -> (gateway: &Ipv4Address)
        ensures
            gateway == self.spec_ip_gateway(),
    {
        &self.ip_gateway
    }

    #[verifier::when_used_as_spec(spec_app_verion)]
    pub fn app_verion(&self) -> (version: &ControllerVersion)
        ensures
            version == self.spec_app_verion(),
    {
        &self.app_version
    }

    #[verifier::when_used_as_spec(spec_boot_verion)]
    pub fn boot_verion(&self) -> (version: &ControllerVersion)
        ensures
            version == self.spec_boot_verion(),
    {
        &self.boot_version
    }

    #[verifier::when_used_as_spec(spec_hardware_version)]
    pub fn hardware_version(&self) -> (version: &ControllerVersion)
        ensures
            version == self.spec_hardware_version(),
    {
        &self.hardware_version
    }

    /// The 32 raw bytes of the device name, as the reply held them.
    pub fn device_name(&self) -> (name: &[u8])
        ensures
            name@ == self.spec_device_name()@,
            name@.len() == DEVICE_NAME_LEN,
    {
        &self.device_name
    }

    /// The decoding of a buffer holds what `reads` says of it.
    pub proof fn lemma_decoding_reads(bytes: Seq<u8>)
        requires
            bytes.len() >= REPLY_LEN,
        ensures
            Self::decoding(bytes).reads(bytes),
    {
        let info = Self::decoding(bytes);
        MsgHeader::lemma_decoding(bytes);
        Ipv4Address::lemma_from_octets(bytes.subrange(20, 24));
        Ipv4Address::lemma_from_octets(bytes.subrange(24, 28));
        Ipv4Address::lemma_from_octets(bytes.subrange(28, 32));
        assert(info.device_name@ =~= bytes.subrange(44, 76));
    }

    /// `reads` leaves no field open: two snapshots that read the same buffer
    /// are the same snapshot.
    pub proof fn lemma_reads_determines(a: ControllerInfo, b: ControllerInfo, bytes: Seq<u8>)
        requires
            a.reads(bytes),
            b.reads(bytes),
        ensures
            a == b,
    {
        MacAddress::lemma_view_injective(a.mac_addr, b.mac_addr);
        Ipv4Address::lemma_view_injective(a.ip_addr, b.ip_addr);
        Ipv4Address::lemma_view_injective(a.ip_netmask, b.ip_netmask);
        Ipv4Address::lemma_view_injective(a.ip_gateway, b.ip_gateway);
        assert(a.device_name =~= b.device_name);
    }
}

} // verus!
