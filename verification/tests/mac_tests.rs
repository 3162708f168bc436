use default_net::mac::{MacAddr, ParseMacAddrError};

#[test]
fn test_new_and_octets() {
    let m = MacAddr::new(0x12, 0x34, 0x56, 0x78, 0x9a, 0xbc);
    assert_eq!(m.octets(), [0x12, 0x34, 0x56, 0x78, 0x9a, 0xbc]);
    let m2 = MacAddr::from_octets([0x12, 0x34, 0x56, 0x78, 0x9a, 0xbc]);
    assert_eq!(m, m2);
}

#[test]
fn test_default_is_zero() {
    assert_eq!(MacAddr::default(), MacAddr::zero());
}

#[test]
fn test_zero_and_broadcast_format() {
    assert_eq!(MacAddr::zero().address(), "00:00:00:00:00:00");
    assert_eq!(MacAddr::broadcast().address(), "ff:ff:ff:ff:ff:ff");
}

#[test]
fn test_address_format() {
    let m = MacAddr::new(0x01, 0x23, 0x45, 0x67, 0x89, 0xab);
    assert_eq!(m.address(), "01:23:45:67:89:ab");
}

#[test]
fn test_parse_strict_valid() {
    assert_eq!(
        MacAddr::parse_strict("aa:bb:cc:dd:ee:ff"),
        Ok(MacAddr::new(0xaa, 0xbb, 0xcc, 0xdd, 0xee, 0xff))
    );
    assert_eq!(
        MacAddr::parse_strict("00:00:00:00:00:00"),
        Ok(MacAddr::zero())
    );
    // Upper-case hex digits are accepted on input.
    assert_eq!(
        MacAddr::parse_strict("AA:BB:CC:DD:EE:FF"),
        Ok(MacAddr::new(0xaa, 0xbb, 0xcc, 0xdd, 0xee, 0xff))
    );
}

#[test]
fn test_parse_strict_round_trip() {
    // Parsing, formatting, and parsing again lands on the same address.
    let first = MacAddr::parse_strict("0A:1b:2C:3d:4E:5f").unwrap();
    let again = MacAddr::parse_strict(&first.address()).unwrap();
    assert_eq!(first, again);
    // The formatted text is canonical lower-case.
    assert_eq!(first.address(), "0a:1b:2c:3d:4e:5f");
}

#[test]
fn test_parse_strict_too_many_components() {
    assert_eq!(
        MacAddr::parse_strict("00:11:22:33:44:55:66"),
        Err(ParseMacAddrError::TooManyComponents)
    );
    // A trailing colon after six valid fields begins a seventh field.
    assert_eq!(
        MacAddr::parse_strict("00:11:22:33:44:55:"),
        Err(ParseMacAddrError::TooManyComponents)
    );
}

#[test]
fn test_parse_strict_too_few_components() {
    assert_eq!(
        MacAddr::parse_strict("00:11"),
        Err(ParseMacAddrError::TooFewComponents)
    );
    assert_eq!(
        MacAddr::parse_strict("00:11:22:33:44"),
        Err(ParseMacAddrError::TooFewComponents)
    );
}

#[test]
fn test_parse_strict_invalid_component() {
    assert_eq!(
        MacAddr::parse_strict("00:GG:22:33:44:55"),
        Err(ParseMacAddrError::InvalidComponent)
    );
    // An empty field is invalid.
    assert_eq!(
        MacAddr::parse_strict("00::22:33:44:55"),
        Err(ParseMacAddrError::InvalidComponent)
    );
    // A field must be exactly two hex digits.
    assert_eq!(
        MacAddr::parse_strict("0:11:22:33:44:55"),
        Err(ParseMacAddrError::InvalidComponent)
    );
    assert_eq!(
        MacAddr::parse_strict("000:11:22:33:44:55"),
        Err(ParseMacAddrError::InvalidComponent)
    );
    assert_eq!(
        MacAddr::parse_strict(""),
        Err(ParseMacAddrError::InvalidComponent)
    );
    // The invalid field is noticed before the count of fields.
    assert_eq!(
        MacAddr::parse_strict("00:GG:22:33:44:55:66:77"),
        Err(ParseMacAddrError::InvalidComponent)
    );
}

#[test]
fn test_from_hex_format_valid() {
    assert_eq!(
        MacAddr::from_hex_format("aa:bb:cc:dd:ee:ff"),
        MacAddr::new(0xaa, 0xbb, 0xcc, 0xdd, 0xee, 0xff)
    );
}

#[test]
fn test_from_hex_format_malformed_yields_zero() {
    // Wrong length.
    assert_eq!(MacAddr::from_hex_format("aa:bb:cc"), MacAddr::zero());
    // Unparsable byte.
    assert_eq!(
        MacAddr::from_hex_format("aa:bb:cc:dd:ee:gg"),
        MacAddr::zero()
    );
    assert_eq!(MacAddr::from_hex_format(""), MacAddr::zero());
}

#[test]
fn test_parse_error_description() {
    assert_eq!(
        ParseMacAddrError::TooManyComponents.description(),
        "Too many components in a MAC address string"
    );
    assert_eq!(
        ParseMacAddrError::TooFewComponents.description(),
        "Too few components in a MAC address string"
    );
    assert_eq!(
        ParseMacAddrError::InvalidComponent.description(),
        "Invalid component in a MAC address string"
    );
}

#[test]
fn test_ordering_is_byte_lexicographic() {
    let a = MacAddr::new(0, 0, 0, 0, 0, 1);
    let b = MacAddr::new(0, 0, 0, 0, 1, 0);
    assert!(a < b);
    assert!(MacAddr::zero() < MacAddr::broadcast());
}
