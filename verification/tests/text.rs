use prologix_rs::text::{push_decimal, push_hex_pair};
use prologix_rs::{
    ControllerAlert, ControllerIpType, ControllerMode, ControllerVersion, Error, Ipv4Address,
    MacAddress,
};

#[test]
fn mac_address_text_is_upper_case_hex_with_colons() {
    let mac = MacAddress::new([0x00, 0x21, 0x69, 0x01, 0xab, 0xcd]);
    assert_eq!(mac.to_string(), "00:21:69:01:AB:CD");
    assert_eq!(mac.to_string(), format!("{:02X}:{:02X}:{:02X}:{:02X}:{:02X}:{:02X}", 0x00, 0x21, 0x69, 0x01, 0xab, 0xcd));
}

#[test]
fn broadcast_mac_address() {
    let mac = MacAddress::default();
    assert_eq!(mac.addr(), &[0xFF, 0xFF, 0xFF, 0xFF, 0xFF, 0xFF]);
    assert_eq!(mac.to_string(), "FF:FF:FF:FF:FF:FF");
}

#[test]
fn mac_address_keeps_its_bytes() {
    let mac = MacAddress::new([1, 2, 3, 4, 5, 6]);
    assert_eq!(mac.addr(), &[1, 2, 3, 4, 5, 6]);
    assert_eq!(mac.addr().len(), 6);
}

#[test]
fn hex_pairs_of_every_byte() {
    for b in 0..=255u8 {
        let mut out = String::from("x");
        push_hex_pair(&mut out, b);
        assert_eq!(out, format!("x{:02X}", b));
    }
}

#[test]
fn decimal_of_every_byte() {
    for n in 0..=255u8 {
        let mut out = String::from("v");
        push_decimal(&mut out, n);
        assert_eq!(out, format!("v{}", n));
    }
}

#[test]
fn version_text() {
    assert_eq!(ControllerVersion::new(1, 6, 6, 0).to_string(), "1.6.6.0");
    assert_eq!(ControllerVersion::new(0, 0, 0, 0).to_string(), "0.0.0.0");
    assert_eq!(ControllerVersion::new(255, 100, 10, 9).to_string(), "255.100.10.9");
}

#[test]
fn address_text() {
    assert_eq!(Ipv4Address::new(192, 168, 1, 50).to_string(), "192.168.1.50");
    assert_eq!(Ipv4Address::new(0, 0, 0, 0).to_string(), "0.0.0.0");
    assert_eq!(Ipv4Address::new(255, 255, 255, 255).to_string(), "255.255.255.255");
}

#[test]
fn status_words() {
    assert_eq!(ControllerMode::BootLoader.to_string(), "BootLoader");
    assert_eq!(ControllerMode::Application.to_string(), "Application");
    assert_eq!(ControllerAlert::Okay.to_string(), "Ok");
    assert_eq!(ControllerAlert::Warning.to_string(), "Warning");
    assert_eq!(ControllerAlert::Error.to_string(), "Error");
    assert_eq!(ControllerIpType::Dynamic.to_string(), "Dynamic");
    assert_eq!(ControllerIpType::Static.to_string(), "Static");
}

#[test]
fn error_messages() {
    let io = Error::Io(std::io::Error::new(std::io::ErrorKind::Other, "down"));
    assert_eq!(io.to_string(), "Socket error");
    assert_eq!(Error::NotFound.to_string(), "No controller found");
    let parse = Error::ParseError { info: String::from("anything") };
    assert_eq!(parse.to_string(), "Failed parsing message");
}
