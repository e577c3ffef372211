use prologix_rs::header::{u16_from_be, HEADER_LEN, IDENTIFY_CMD, PROLOGIX_MAGIC, REBOOT_CMD};
use prologix_rs::request::{build_discovery_with, build_reboot_with, REBOOT_REQUEST_LEN};
use prologix_rs::{build_discovery, build_reboot, MacAddress, MsgHeader, RebootType};

#[test]
fn verify_build_discover() {
    let result = build_discovery();
    assert!(result.starts_with(&[0x5A, 0x00]));
    assert!(result.ends_with(&[0xFF, 0xFF, 0xFF, 0xFF, 0xFF, 0xFF, 0x00, 0x00]))
}

#[test]
fn discovery_request_is_twelve_bytes_every_time() {
    for _ in 0..200 {
        let request = build_discovery();
        assert_eq!(request.len(), 12);
        assert_eq!(&request[0..2], &[0x5A, 0x00]);
        assert_eq!(&request[4..12], &[0xFF, 0xFF, 0xFF, 0xFF, 0xFF, 0xFF, 0x00, 0x00]);
    }
}

#[test]
fn discovery_request_with_sequence_is_exact() {
    assert_eq!(
        build_discovery_with(0x1234),
        vec![0x5A, 0x00, 0x12, 0x34, 0xFF, 0xFF, 0xFF, 0xFF, 0xFF, 0xFF, 0x00, 0x00]
    );
    assert_eq!(
        build_discovery_with(0),
        vec![0x5A, 0x00, 0x00, 0x00, 0xFF, 0xFF, 0xFF, 0xFF, 0xFF, 0xFF, 0x00, 0x00]
    );
    assert_eq!(
        build_discovery_with(0xFFFF),
        vec![0x5A, 0x00, 0xFF, 0xFF, 0xFF, 0xFF, 0xFF, 0xFF, 0xFF, 0xFF, 0x00, 0x00]
    );
    assert_eq!(
        build_discovery_with(0x00FF),
        vec![0x5A, 0x00, 0x00, 0xFF, 0xFF, 0xFF, 0xFF, 0xFF, 0xFF, 0xFF, 0x00, 0x00]
    );
}

#[test]
fn reboot_request_is_sixteen_bytes_for_each_type() {
    for _ in 0..100 {
        let reset = build_reboot(&RebootType::Reset);
        assert_eq!(reset.len(), 16);
        assert_eq!(reset.len(), REBOOT_REQUEST_LEN);
        assert_eq!(&reset[0..2], &[0x5A, 0x12]);
        assert_eq!(&reset[4..12], &[0xFF, 0xFF, 0xFF, 0xFF, 0xFF, 0xFF, 0x00, 0x00]);
        assert_eq!(&reset[12..16], &[1, 0, 0, 0]);

        let bootloader = build_reboot(&RebootType::Bootloader);
        assert_eq!(bootloader.len(), 16);
        assert_eq!(&bootloader[0..2], &[0x5A, 0x12]);
        assert_eq!(&bootloader[4..12], &[0xFF, 0xFF, 0xFF, 0xFF, 0xFF, 0xFF, 0x00, 0x00]);
        assert_eq!(&bootloader[12..16], &[0, 0, 0, 0]);
    }
}

#[test]
fn reboot_request_with_sequence_is_exact() {
    assert_eq!(
        build_reboot_with(0xBEEF, &RebootType::Reset),
        vec![0x5A, 0x12, 0xBE, 0xEF, 0xFF, 0xFF, 0xFF, 0xFF, 0xFF, 0xFF, 0x00, 0x00, 1, 0, 0, 0]
    );
    assert_eq!(
        build_reboot_with(0x0001, &RebootType::Bootloader),
        vec![0x5A, 0x12, 0x00, 0x01, 0xFF, 0xFF, 0xFF, 0xFF, 0xFF, 0xFF, 0x00, 0x00, 0, 0, 0, 0]
    );
}

#[test]
fn reboot_type_codes() {
    assert_eq!(RebootType::Bootloader.to_u8(), 0);
    assert_eq!(RebootType::Reset.to_u8(), 1);
}

#[test]
fn sequence_numbers_vary() {
    let mut seen = std::collections::HashSet::new();
    for _ in 0..64 {
        let request = build_discovery();
        seen.insert((request[2], request[3]));
    }
    assert!(seen.len() > 1);
}

#[test]
fn header_constants() {
    assert_eq!(PROLOGIX_MAGIC, 0x5A);
    assert_eq!(IDENTIFY_CMD, 0x00);
    assert_eq!(REBOOT_CMD, 0x12);
    assert_eq!(HEADER_LEN, 12);
}

#[test]
fn header_encodes_fields_in_order() {
    let header = MsgHeader::new(0x5A, 0x12, 0xA1B2, MacAddress::new([1, 2, 3, 4, 5, 6]));
    assert_eq!(header.to_bytes(), vec![0x5A, 0x12, 0xA1, 0xB2, 1, 2, 3, 4, 5, 6, 0, 0]);
}

#[test]
fn header_decodes_without_validation() {
    let bytes = [0x00, 0x7F, 0x01, 0x02, 9, 8, 7, 6, 5, 4, 0xAA, 0xBB, 0xCC];
    let header = MsgHeader::from_bytes(&bytes);
    assert_eq!(header.magic(), 0x00);
    assert_eq!(header.id(), 0x7F);
    assert_eq!(header.seq(), 0x0102);
    assert_eq!(header.mac_addr().addr(), &[9, 8, 7, 6, 5, 4]);
}

#[test]
fn header_round_trips() {
    let header = MsgHeader::new(0x5A, 0x00, 0xFF01, MacAddress::new([0xDE, 0xAD, 0xBE, 0xEF, 0, 1]));
    let decoded = MsgHeader::from_bytes(&header.to_bytes());
    assert_eq!(decoded, header);

    let bytes = vec![0x5A, 0x00, 0x80, 0x7F, 10, 20, 30, 40, 50, 60, 0, 0];
    assert_eq!(MsgHeader::from_bytes(&bytes).to_bytes(), bytes);
}

#[test]
fn request_header_decodes_to_broadcast() {
    let request = build_discovery_with(0x0A0B);
    let header = MsgHeader::from_bytes(&request);
    assert_eq!(header.magic(), PROLOGIX_MAGIC);
    assert_eq!(header.id(), IDENTIFY_CMD);
    assert_eq!(header.seq(), 0x0A0B);
    assert_eq!(header.mac_addr(), MacAddress::default());
}

#[test]
fn big_endian_pairs() {
    assert_eq!(u16_from_be(0x00, 0x00), 0);
    assert_eq!(u16_from_be(0x00, 0x01), 1);
    assert_eq!(u16_from_be(0x01, 0x00), 256);
    assert_eq!(u16_from_be(0x12, 0x34), 0x1234);
    assert_eq!(u16_from_be(0xFF, 0xFF), 65535);
}
