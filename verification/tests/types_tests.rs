use default_net::interface::types::{ConversionError, InterfaceType, Platform};

fn all_variants() -> Vec<InterfaceType> {
    vec![
        InterfaceType::Unknown,
        InterfaceType::Ethernet,
        InterfaceType::TokenRing,
        InterfaceType::Fddi,
        InterfaceType::BasicIsdn,
        InterfaceType::PrimaryIsdn,
        InterfaceType::Ppp,
        InterfaceType::Loopback,
        InterfaceType::Ethernet3Megabit,
        InterfaceType::Slip,
        InterfaceType::Atm,
        InterfaceType::GenericModem,
        InterfaceType::FastEthernetT,
        InterfaceType::Isdn,
        InterfaceType::FastEthernetFx,
        InterfaceType::Wireless80211,
        InterfaceType::AsymmetricDsl,
        InterfaceType::RateAdaptDsl,
        InterfaceType::SymmetricDsl,
        InterfaceType::VeryHighSpeedDsl,
        InterfaceType::IPOverAtm,
        InterfaceType::GigabitEthernet,
        InterfaceType::Tunnel,
        InterfaceType::MultiRateSymmetricDsl,
        InterfaceType::HighPerformanceSerialBus,
        InterfaceType::Wman,
        InterfaceType::Wwanpp,
        InterfaceType::Wwanpp2,
    ]
}

#[test]
fn test_windows_values() {
    assert_eq!(InterfaceType::Ethernet.value(Platform::Windows), 6);
    assert_eq!(InterfaceType::Loopback.value(Platform::Windows), 24);
    assert_eq!(InterfaceType::Wireless80211.value(Platform::Windows), 71);
    assert_eq!(InterfaceType::Tunnel.value(Platform::Windows), 131);
    assert_eq!(InterfaceType::GigabitEthernet.value(Platform::Windows), 117);
}

#[test]
fn test_linux_values() {
    assert_eq!(InterfaceType::Ethernet.value(Platform::Linux), 1);
    assert_eq!(InterfaceType::Loopback.value(Platform::Linux), 772);
    assert_eq!(InterfaceType::Wireless80211.value(Platform::Linux), 801);
    assert_eq!(InterfaceType::Tunnel.value(Platform::Linux), 768);
    // Types the Linux table does not map share the sentinel.
    assert_eq!(InterfaceType::GigabitEthernet.value(Platform::Linux), u32::MAX);
    assert_eq!(InterfaceType::Unknown.value(Platform::Linux), u32::MAX);
}

#[test]
fn test_bsd_values_are_sentinel() {
    for v in all_variants() {
        assert_eq!(v.value(Platform::Bsd), 0);
    }
}

#[test]
fn test_windows_round_trip_all_variants() {
    // Every Windows code is unique, so every variant inverts exactly.
    for v in all_variants() {
        let code = v.value(Platform::Windows);
        assert_eq!(InterfaceType::from_value(Platform::Windows, code), Ok(v));
    }
}

#[test]
fn test_linux_round_trip_mapped_variants() {
    let mapped = vec![
        InterfaceType::Ethernet,
        InterfaceType::TokenRing,
        InterfaceType::Fddi,
        InterfaceType::Ppp,
        InterfaceType::Loopback,
        InterfaceType::Ethernet3Megabit,
        InterfaceType::Slip,
        InterfaceType::Atm,
        InterfaceType::Wireless80211,
        InterfaceType::Tunnel,
    ];
    for v in mapped {
        let code = v.value(Platform::Linux);
        assert_eq!(InterfaceType::from_value(Platform::Linux, code), Ok(v));
    }
}

#[test]
fn test_first_match_wins_on_colliding_codes() {
    // On Linux every unmapped variant shares the sentinel code, and the
    // first variant in declaration order wins the inversion.
    assert_eq!(
        InterfaceType::from_value(Platform::Linux, u32::MAX),
        Ok(InterfaceType::Unknown)
    );
    // On the BSD family every variant carries 0, so 0 inverts to the
    // first declared variant.
    assert_eq!(
        InterfaceType::from_value(Platform::Bsd, 0),
        Ok(InterfaceType::Unknown)
    );
}

#[test]
fn test_from_value_unmatched() {
    assert_eq!(
        InterfaceType::from_value(Platform::Windows, 1000),
        Err(ConversionError)
    );
    assert_eq!(
        InterfaceType::from_value(Platform::Bsd, 7),
        Err(ConversionError)
    );
}

#[test]
fn test_names() {
    assert_eq!(InterfaceType::Ethernet.name(), "Ethernet");
    assert_eq!(InterfaceType::Fddi.name(), "FDDI");
    assert_eq!(InterfaceType::GigabitEthernet.name(), "Gigabit Ethernet");
    assert_eq!(InterfaceType::Wwanpp2.name(), "WWANPP2");
    assert_eq!(InterfaceType::Wireless80211.name(), "Wireless IEEE 802.11");
}
