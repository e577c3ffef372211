use prologix_rs::info::{DEVICE_NAME_LEN, MAX_UPTIME_SECS, REPLY_LEN};
use prologix_rs::{
    ControllerAlert, ControllerInfo, ControllerIpType, ControllerMode, ControllerVersion, Error,
    Ipv4Address, MacAddress,
};

fn sample_reply() -> Vec<u8> {
    let mut reply = vec![0u8; 76];
    reply[0] = 0x5A;
    reply[1] = 0x00;
    reply[2] = 0x12;
    reply[3] = 0x34;
    reply[4..10].copy_from_slice(&[0x00, 0x21, 0x69, 0x01, 0xAB, 0xCD]);
    reply[12] = 0;
    reply[13] = 1;
    reply[14] = 2;
    reply[15] = 3;
    reply[16] = 4;
    reply[17] = 1;
    reply[18] = 0;
    reply[19] = 1;
    reply[20..24].copy_from_slice(&[192, 168, 1, 50]);
    reply[24..28].copy_from_slice(&[255, 255, 255, 0]);
    reply[28..32].copy_from_slice(&[192, 168, 1, 1]);
    reply[32..36].copy_from_slice(&[1, 6, 6, 0]);
    reply[36..40].copy_from_slice(&[1, 3, 0, 2]);
    reply[40..44].copy_from_slice(&[1, 1, 0, 0]);
    for i in 0..32 {
        reply[44 + i] = 0x40 + i as u8;
    }
    reply
}

fn parse_detail(result: Result<ControllerInfo, Error>) -> String {
    match result {
        Err(Error::ParseError { info }) => info,
        other => panic!("expected a parse error, got {:?}", other),
    }
}

#[test]
fn uptime_of_one_day_two_hours_three_minutes_four_seconds() {
    let info = ControllerInfo::from_bytes(&sample_reply()).unwrap();
    assert_eq!(info.uptime(), 93784);
    assert_eq!(std::time::Duration::from_secs(info.uptime()), std::time::Duration::from_secs(93784));
}

#[test]
fn uptime_days_are_big_endian() {
    let mut reply = sample_reply();
    reply[12] = 1;
    reply[13] = 0;
    reply[14] = 0;
    reply[15] = 0;
    reply[16] = 0;
    assert_eq!(ControllerInfo::from_bytes(&reply).unwrap().uptime(), 256 * 86400);
}

#[test]
fn uptime_extremes() {
    let mut reply = sample_reply();
    for i in 12..17 {
        reply[i] = 0;
    }
    assert_eq!(ControllerInfo::from_bytes(&reply).unwrap().uptime(), 0);
    for i in 12..17 {
        reply[i] = 0xFF;
    }
    let longest = 65535u64 * 86400 + 255 * 3600 + 255 * 60 + 255;
    assert_eq!(ControllerInfo::from_bytes(&reply).unwrap().uptime(), longest);
    assert_eq!(longest, MAX_UPTIME_SECS);
}

#[test]
fn decodes_every_field() {
    let info = ControllerInfo::from_bytes(&sample_reply()).unwrap();
    assert_eq!(*info.mac_addr(), MacAddress::new([0x00, 0x21, 0x69, 0x01, 0xAB, 0xCD]));
    assert_eq!(*info.mode(), ControllerMode::Application);
    assert_eq!(*info.alert(), ControllerAlert::Okay);
    assert_eq!(*info.ip_type(), ControllerIpType::Static);
    assert_eq!(*info.ip_addr(), Ipv4Address::new(192, 168, 1, 50));
    assert_eq!(*info.ip_netmask(), Ipv4Address::new(255, 255, 255, 0));
    assert_eq!(*info.ip_gateway(), Ipv4Address::new(192, 168, 1, 1));
    assert_eq!(*info.app_verion(), ControllerVersion::new(1, 6, 6, 0));
    assert_eq!(*info.boot_verion(), ControllerVersion::new(1, 3, 0, 2));
    assert_eq!(*info.hardware_version(), ControllerVersion::new(1, 1, 0, 0));
    let name: Vec<u8> = (0..32).map(|i| 0x40 + i as u8).collect();
    assert_eq!(info.device_name(), &name[..]);
    assert_eq!(info.device_name().len(), DEVICE_NAME_LEN);
}

#[test]
fn sequence_and_command_do_not_matter() {
    let mut reply = sample_reply();
    let first = ControllerInfo::from_bytes(&reply).unwrap();
    reply[1] = 0x99;
    reply[2] = 0xFF;
    reply[3] = 0xFF;
    reply[10] = 7;
    reply[11] = 7;
    assert_eq!(ControllerInfo::from_bytes(&reply).unwrap(), first);
}

#[test]
fn bytes_past_the_reply_do_not_matter() {
    let mut reply = sample_reply();
    let first = ControllerInfo::from_bytes(&reply).unwrap();
    reply.extend_from_slice(&[1, 2, 3, 4, 5]);
    assert_eq!(ControllerInfo::from_bytes(&reply).unwrap(), first);
}

#[test]
fn short_buffers_fail() {
    let reply = sample_reply();
    for len in [0usize, 1, 11, 12, 23, 24, 43, 75] {
        let detail = parse_detail(ControllerInfo::from_bytes(&reply[..len]));
        assert_eq!(detail, "Failed to parse ControllerInfo");
    }
    assert!(ControllerInfo::from_bytes(&reply[..76]).is_ok());
    assert_eq!(REPLY_LEN, 76);
}

#[test]
fn short_buffer_with_wrong_magic_reports_length() {
    let mut reply = sample_reply();
    reply[0] = 0x00;
    let detail = parse_detail(ControllerInfo::from_bytes(&reply[..75]));
    assert_eq!(detail, "Failed to parse ControllerInfo");
}

#[test]
fn wrong_magic_fails_whatever_follows() {
    for magic in [0x00u8, 0x59, 0x5B, 0xA5, 0xFF] {
        let mut reply = sample_reply();
        reply[0] = magic;
        let detail = parse_detail(ControllerInfo::from_bytes(&reply));
        assert_eq!(detail, "Incorrect magic number at start of message");

        let mut other = vec![0xEEu8; 76];
        other[0] = magic;
        let detail = parse_detail(ControllerInfo::from_bytes(&other));
        assert_eq!(detail, "Incorrect magic number at start of message");
    }
}

#[test]
fn mode_bytes() {
    assert_eq!(ControllerMode::from(0), ControllerMode::BootLoader);
    assert_eq!(ControllerMode::from(1), ControllerMode::Application);
    assert_eq!(ControllerMode::from(2), ControllerMode::Application);
    assert_eq!(ControllerMode::from(255), ControllerMode::Application);
}

#[test]
fn alert_bytes() {
    assert_eq!(ControllerAlert::from(0), ControllerAlert::Okay);
    assert_eq!(ControllerAlert::from(1), ControllerAlert::Warning);
    assert_eq!(ControllerAlert::from(2), ControllerAlert::Error);
    assert_eq!(ControllerAlert::from(255), ControllerAlert::Error);
}

#[test]
fn ip_type_bytes() {
    assert_eq!(ControllerIpType::from(0), ControllerIpType::Dynamic);
    assert_eq!(ControllerIpType::from(1), ControllerIpType::Static);
    assert_eq!(ControllerIpType::from(200), ControllerIpType::Static);
}

#[test]
fn status_bytes_in_a_reply() {
    let mut reply = sample_reply();
    reply[17] = 0;
    reply[18] = 1;
    reply[19] = 0;
    let info = ControllerInfo::from_bytes(&reply).unwrap();
    assert_eq!(*info.mode(), ControllerMode::BootLoader);
    assert_eq!(*info.alert(), ControllerAlert::Warning);
    assert_eq!(*info.ip_type(), ControllerIpType::Dynamic);
    reply[17] = 9;
    reply[18] = 9;
    reply[19] = 9;
    let info = ControllerInfo::from_bytes(&reply).unwrap();
    assert_eq!(*info.mode(), ControllerMode::Application);
    assert_eq!(*info.alert(), ControllerAlert::Error);
    assert_eq!(*info.ip_type(), ControllerIpType::Static);
}

#[test]
fn version_parts() {
    let version = ControllerVersion::new(1, 2, 3, 4);
    assert_eq!(version.major(), 1);
    assert_eq!(version.minor(), 2);
    assert_eq!(version.patch(), 3);
    assert_eq!(version.bugfix(), 4);
}

#[test]
fn address_as_number() {
    assert_eq!(Ipv4Address::new(0, 0, 0, 0).to_bits(), 0);
    assert_eq!(Ipv4Address::new(0, 0, 0, 1).to_bits(), 1);
    assert_eq!(Ipv4Address::new(192, 168, 1, 50).to_bits(), 0xC0A8_0132);
    assert_eq!(Ipv4Address::new(255, 255, 255, 255).to_bits(), u32::MAX);
    assert_eq!(Ipv4Address::new(10, 20, 30, 40).octets(), [10, 20, 30, 40]);
    assert_eq!(
        Ipv4Address::new(192, 168, 1, 50).to_bits(),
        u32::from_be_bytes([192, 168, 1, 50])
    );
}
