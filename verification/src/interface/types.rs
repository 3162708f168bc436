use vstd::prelude::*;

verus! {

/// Operating-system family whose numeric interface-type codes apply.
///
/// The same interface type carries a different numeric code on each
/// family, and some families map only a subset of the types.
#[derive(Clone, Copy, Debug, PartialEq, Eq, Structural)]
pub enum Platform {
    /// The Windows family of systems.
    Windows,
    /// The Linux family of systems (including Android).
    Linux,
    /// The BSD-derived family (macOS, iOS, FreeBSD, OpenBSD, NetBSD),
    /// whose table is not populated and reports a zero sentinel.
    Bsd,
}

/// Type of Network Interface
#[derive(Clone, Copy, Debug, PartialEq, Eq, Structural)]
pub enum InterfaceType {
    /// Unknown interface type
    Unknown,
    /// The network interface using an Ethernet connection
    Ethernet,
    /// The network interface using a Token-Ring connection
    TokenRing,
    /// The network interface using a Fiber Distributed Data Interface (FDDI) connection
    Fddi,
    /// The network interface using a basic rate interface Integrated Services Digital Network (ISDN) connection
    BasicIsdn,
    /// The network interface using a primary rate interface Integrated Services Digital Network (ISDN) connection
    PrimaryIsdn,
    /// The network interface using a Point-To-Point protocol (PPP) connection
    Ppp,
    /// The loopback interface (often used for testing)
    Loopback,
    /// The network interface using an Ethernet 3 megabit/second connection
    Ethernet3Megabit,
    /// The network interface using a Serial Line Internet Protocol (SLIP) connection
    Slip,
    /// The network interface using asynchronous transfer mode (ATM) for data transmission
    Atm,
    /// The network interface using a modem
    GenericModem,
    /// The network interface using a Fast Ethernet connection over twisted pair and provides a data rate of 100 megabits per second (100BASE-T)
    FastEthernetT,
    /// The network interface using a connection configured for ISDN and the X.25 protocol.
    Isdn,
    /// The network interface using a Fast Ethernet connection over optical fiber and provides a data rate of 100 megabits per second (100Base-FX)
    FastEthernetFx,
    /// The network interface using a wireless LAN connection (IEEE 802.11)
    Wireless80211,
    /// The network interface using an Asymmetric Digital Subscriber Line (ADSL)
    AsymmetricDsl,
    /// The network interface using a Rate Adaptive Digital Subscriber Line (RADSL)
    RateAdaptDsl,
    /// The network interface using a Symmetric Digital Subscriber Line (SDSL)
    SymmetricDsl,
    /// The network interface using a Very High Data Rate Digital Subscriber Line (VDSL)
    VeryHighSpeedDsl,
    /// The network interface using the Internet Protocol (IP) in combination with asynchronous transfer mode (ATM) for data transmission
    IPOverAtm,
    /// The network interface using a gigabit Ethernet connection and provides a data rate of 1,000 megabits per second (1 gigabit per second)
    GigabitEthernet,
    /// The network interface using a tunnel connection
    Tunnel,
    /// The network interface using a Multirate Digital Subscriber Line
    MultiRateSymmetricDsl,
    /// The network interface using a High Performance Serial Bus
    HighPerformanceSerialBus,
    /// The network interface using a mobile broadband interface for WiMax devices
    Wman,
    /// The network interface using a mobile broadband interface for GSM-based devices
    Wwanpp,
    /// The network interface using a mobile broadband interface for CDMA-based devices
    Wwanpp2,
}

/// The numeric code of an interface type on a platform family.
///
/// The Windows table maps every type; the Linux table maps a subset and
/// reports `u32::MAX` for the rest; the BSD table reports zero for all.
pub open spec fn spec_value(platform: Platform, t: InterfaceType) -> u32 {
    match platform {
        Platform::Windows => match t {
            InterfaceType::Unknown => 1,
            InterfaceType::Ethernet => 6,
            InterfaceType::TokenRing => 9,
            InterfaceType::Fddi => 15,
            InterfaceType::BasicIsdn => 20,
            InterfaceType::PrimaryIsdn => 21,
            InterfaceType::Ppp => 23,
            InterfaceType::Loopback => 24,
            InterfaceType::Ethernet3Megabit => 26,
            InterfaceType::Slip => 28,
            InterfaceType::Atm => 37,
            InterfaceType::GenericModem => 48,
            InterfaceType::FastEthernetT => 62,
            InterfaceType::Isdn => 63,
            InterfaceType::FastEthernetFx => 69,
            InterfaceType::Wireless80211 => 71,
            InterfaceType::AsymmetricDsl => 94,
            InterfaceType::RateAdaptDsl => 95,
            InterfaceType::SymmetricDsl => 96,
            InterfaceType::VeryHighSpeedDsl => 97,
            InterfaceType::IPOverAtm => 114,
            InterfaceType::GigabitEthernet => 117,
            InterfaceType::Tunnel => 131,
            InterfaceType::MultiRateSymmetricDsl => 143,
            InterfaceType::HighPerformanceSerialBus => 144,
            InterfaceType::Wman => 237,
            InterfaceType::Wwanpp => 243,
            InterfaceType::Wwanpp2 => 244,
        },
        Platform::Linux => match t {
            InterfaceType::Ethernet => 1,
            InterfaceType::TokenRing => 4,
            InterfaceType::Fddi => 774,
            InterfaceType::Ppp => 512,
            InterfaceType::Loopback => 772,
            InterfaceType::Ethernet3Megabit => 2,
            InterfaceType::Slip => 256,
            InterfaceType::Atm => 19,
            InterfaceType::Wireless80211 => 801,
            InterfaceType::Tunnel => 768,
            _ => u32::MAX,
        },
        Platform::Bsd => 0,
    }
}

/// The fixed, platform-independent label of an interface type.
pub open spec fn spec_name(t: InterfaceType) -> Seq<char> {
    match t {
        InterfaceType::Unknown => "Unknown"@,
        InterfaceType::Ethernet => "Ethernet"@,
        InterfaceType::TokenRing => "Token Ring"@,
        InterfaceType::Fddi => "FDDI"@,
        InterfaceType::BasicIsdn => "Basic ISDN"@,
        InterfaceType::PrimaryIsdn => "Primary ISDN"@,
        InterfaceType::Ppp => "PPP"@,
        InterfaceType::Loopback => "Loopback"@,
        InterfaceType::Ethernet3Megabit => "Ethernet 3 megabit"@,
        InterfaceType::Slip => "SLIP"@,
        InterfaceType::Atm => "ATM"@,
        InterfaceType::GenericModem => "Generic Modem"@,
        InterfaceType::FastEthernetT => "Fast Ethernet T"@,
        InterfaceType::Isdn => "ISDN"@,
        InterfaceType::FastEthernetFx => "Fast Ethernet FX"@,
        InterfaceType::Wireless80211 => "Wireless IEEE 802.11"@,
        InterfaceType::AsymmetricDsl => "Asymmetric DSL"@,
        InterfaceType::RateAdaptDsl => "Rate Adaptive DSL"@,
        InterfaceType::SymmetricDsl => "Symmetric DSL"@,
        InterfaceType::VeryHighSpeedDsl => "Very High Data Rate DSL"@,
        InterfaceType::IPOverAtm => "IP over ATM"@,
        InterfaceType::GigabitEthernet => "Gigabit Ethernet"@,
        InterfaceType::Tunnel => "Tunnel"@,
        InterfaceType::MultiRateSymmetricDsl => "Multi-Rate Symmetric DSL"@,
        InterfaceType::HighPerformanceSerialBus => "High Performance Serial Bus"@,
        InterfaceType::Wman => "WMAN"@,
        InterfaceType::Wwanpp => "WWANPP"@,
        InterfaceType::Wwanpp2 => "WWANPP2"@,
    }
}

/// Failure of the code-to-variant conversion: no variant of the
/// platform's table carries the requested numeric code.
#[derive(Clone, Copy, Debug, PartialEq, Eq, Structural)]
pub struct ConversionError;

/// The inverse of `spec_value`: the first variant, in declaration order,
/// whose code on the platform equals `v`.
pub open spec fn spec_from_value(platform: Platform, v: u32) -> Result<
    InterfaceType,
    ConversionError,
> {
    if v == spec_value(platform, InterfaceType::Unknown) {
        Ok(InterfaceType::Unknown)
    } else if v == spec_value(platform, InterfaceType::Ethernet) {
        Ok(InterfaceType::Ethernet)
    } else if v == spec_value(platform, InterfaceType::TokenRing) {
        Ok(InterfaceType::TokenRing)
    } else if v == spec_value(platform, InterfaceType::Fddi) {
        Ok(InterfaceType::Fddi)
    } else if v == spec_value(platform, InterfaceType::BasicIsdn) {
        Ok(InterfaceType::BasicIsdn)
    } else if v == spec_value(platform, InterfaceType::PrimaryIsdn) {
        Ok(InterfaceType::PrimaryIsdn)
    } else if v == spec_value(platform, InterfaceType::Ppp) {
        Ok(InterfaceType::Ppp)
    } else if v == spec_value(platform, InterfaceType::Loopback) {
        Ok(InterfaceType::Loopback)
    } else if v == spec_value(platform, InterfaceType::Ethernet3Megabit) {
        Ok(InterfaceType::Ethernet3Megabit)
    } else if v == spec_value(platform, InterfaceType::Slip) {
        Ok(InterfaceType::Slip)
    } else if v == spec_value(platform, InterfaceType::Atm) {
        Ok(InterfaceType::Atm)
    } else if v == spec_value(platform, InterfaceType::GenericModem) {
        Ok(InterfaceType::GenericModem)
    } else if v == spec_value(platform, InterfaceType::FastEthernetT) {
        Ok(InterfaceType::FastEthernetT)
    } else if v == spec_value(platform, InterfaceType::Isdn) {
        Ok(InterfaceType::Isdn)
    } else if v == spec_value(platform, InterfaceType::FastEthernetFx) {
        Ok(InterfaceType::FastEthernetFx)
    } else if v == spec_value(platform, InterfaceType::Wireless80211) {
        Ok(InterfaceType::Wireless80211)
    } else if v == spec_value(platform, InterfaceType::AsymmetricDsl) {
        Ok(InterfaceType::AsymmetricDsl)
    } else if v == spec_value(platform, InterfaceType::RateAdaptDsl) {
        Ok(InterfaceType::RateAdaptDsl)
    } else if v == spec_value(platform, InterfaceType::SymmetricDsl) {
        Ok(InterfaceType::SymmetricDsl)
    } else if v == spec_value(platform, InterfaceType::VeryHighSpeedDsl) {
        Ok(InterfaceType::VeryHighSpeedDsl)
    } else if v == spec_value(platform, InterfaceType::IPOverAtm) {
        Ok(InterfaceType::IPOverAtm)
    } else if v == spec_value(platform, InterfaceType::GigabitEthernet) {
        Ok(InterfaceType::GigabitEthernet)
    } else if v == spec_value(platform, InterfaceType::Tunnel) {
        Ok(InterfaceType::Tunnel)
    } else if v == spec_value(platform, InterfaceType::MultiRateSymmetricDsl) {
        Ok(InterfaceType::MultiRateSymmetricDsl)
    } else if v == spec_value(platform, InterfaceType::HighPerformanceSerialBus) {
        Ok(InterfaceType::HighPerformanceSerialBus)
    } else if v == spec_value(platform, InterfaceType::Wman) {
        Ok(InterfaceType::Wman)
    } else if v == spec_value(platform, InterfaceType::Wwanpp) {
        Ok(InterfaceType::Wwanpp)
    } else if v == spec_value(platform, InterfaceType::Wwanpp2) {
        Ok(InterfaceType::Wwanpp2)
    } else {
        Err(ConversionError)
    }
}

impl InterfaceType {
    /// Returns OS-specific value of InterfaceType
    pub fn value(&self, platform: Platform) -> (v: u32)
        ensures
            v == spec_value(platform, *self),
    {
        match platform {
            Platform::Windows => match *self {
                InterfaceType::Unknown => 1,
                InterfaceType::Ethernet => 6,
                InterfaceType::TokenRing => 9,
                InterfaceType::Fddi => 15,
                InterfaceType::BasicIsdn => 20,
                InterfaceType::PrimaryIsdn => 21,
                InterfaceType::Ppp => 23,
                InterfaceType::Loopback => 24,
                InterfaceType::Ethernet3Megabit => 26,
                InterfaceType::Slip => 28,
                InterfaceType::Atm => 37,
                InterfaceType::GenericModem => 48,
                InterfaceType::FastEthernetT => 62,
                InterfaceType::Isdn => 63,
                InterfaceType::FastEthernetFx => 69,
                InterfaceType::Wireless80211 => 71,
                InterfaceType::AsymmetricDsl => 94,
                InterfaceType::RateAdaptDsl => 95,
                InterfaceType::SymmetricDsl => 96,
                InterfaceType::VeryHighSpeedDsl => 97,
                InterfaceType::IPOverAtm => 114,
                InterfaceType::GigabitEthernet => 117,
                InterfaceType::Tunnel => 131,
                InterfaceType::MultiRateSymmetricDsl => 143,
                InterfaceType::HighPerformanceSerialBus => 144,
                InterfaceType::Wman => 237,
                InterfaceType::Wwanpp => 243,
                InterfaceType::Wwanpp2 => 244,
            },
            Platform::Linux => match *self {
                InterfaceType::Ethernet => 1,
                InterfaceType::TokenRing => 4,
                InterfaceType::Fddi => 774,
                InterfaceType::Ppp => 512,
                InterfaceType::Loopback => 772,
                InterfaceType::Ethernet3Megabit => 2,
                InterfaceType::Slip => 256,
                InterfaceType::Atm => 19,
                InterfaceType::Wireless80211 => 801,
                InterfaceType::Tunnel => 768,
                _ => u32::MAX,
            },
            Platform::Bsd => 0,
        }
    }

    /// Returns name of InterfaceType
    pub fn name(&self) -> (r: String)
        ensures
            r@ == spec_name(*self),
    {
        match *self {
            InterfaceType::Unknown => String::from_str("Unknown"),
            InterfaceType::Ethernet => String::from_str("Ethernet"),
            InterfaceType::TokenRing => String::from_str("Token Ring"),
            InterfaceType::Fddi => String::from_str("FDDI"),
            InterfaceType::BasicIsdn => String::from_str("Basic ISDN"),
            InterfaceType::PrimaryIsdn => String::from_str("Primary ISDN"),
            InterfaceType::Ppp => String::from_str("PPP"),
            InterfaceType::Loopback => String::from_str("Loopback"),
            InterfaceType::Ethernet3Megabit => String::from_str("Ethernet 3 megabit"),
            InterfaceType::Slip => String::from_str("SLIP"),
            InterfaceType::Atm => String::from_str("ATM"),
            InterfaceType::GenericModem => String::from_str("Generic Modem"),
            InterfaceType::FastEthernetT => String::from_str("Fast Ethernet T"),
            InterfaceType::Isdn => String::from_str("ISDN"),
            InterfaceType::FastEthernetFx => String::from_str("Fast Ethernet FX"),
            InterfaceType::Wireless80211 => String::from_str("Wireless IEEE 802.11"),
            InterfaceType::AsymmetricDsl => String::from_str("Asymmetric DSL"),
            InterfaceType::RateAdaptDsl => String::from_str("Rate Adaptive DSL"),
            InterfaceType::SymmetricDsl => String::from_str("Symmetric DSL"),
            InterfaceType::VeryHighSpeedDsl => String::from_str("Very High Data Rate DSL"),
            InterfaceType::IPOverAtm => String::from_str("IP over ATM"),
            InterfaceType::GigabitEthernet => String::from_str("Gigabit Ethernet"),
            InterfaceType::Tunnel => String::from_str("Tunnel"),
            InterfaceType::MultiRateSymmetricDsl => String::from_str("Multi-Rate Symmetric DSL"),
            InterfaceType::HighPerformanceSerialBus => String::from_str(
                "High Performance Serial Bus",
            ),
            InterfaceType::Wman => String::from_str("WMAN"),
            InterfaceType::Wwanpp => String::from_str("WWANPP"),
            InterfaceType::Wwanpp2 => String::from_str("WWANPP2"),
        }
    }

    /// Convert a platform-specific numeric code back to an interface
    /// type: the variants are checked in a fixed declaration order and
    /// the first exact match wins.
    #[verifier::rlimit(50)]
    pub fn from_value(platform: Platform, v: u32) -> (r: Result<InterfaceType, ConversionError>)
        ensures
            r == spec_from_value(platform, v),
    {
        if v == InterfaceType::Unknown.value(platform) {
            Ok(InterfaceType::Unknown)
        } else if v == InterfaceType::Ethernet.value(platform) {
            Ok(InterfaceType::Ethernet)
        } else if v == InterfaceType::TokenRing.value(platform) {
            Ok(InterfaceType::TokenRing)
        } else if v == InterfaceType::Fddi.value(platform) {
            Ok(InterfaceType::Fddi)
        } else if v == InterfaceType::BasicIsdn.value(platform) {
            Ok(InterfaceType::BasicIsdn)
        } else if v == InterfaceType::PrimaryIsdn.value(platform) {
            Ok(InterfaceType::PrimaryIsdn)
        } else if v == InterfaceType::Ppp.value(platform) {
            Ok(InterfaceType::Ppp)
        } else if v == InterfaceType::Loopback.value(platform) {
            Ok(InterfaceType::Loopback)
        } else if v == InterfaceType::Ethernet3Megabit.value(platform) {
            Ok(InterfaceType::Ethernet3Megabit)
        } else if v == InterfaceType::Slip.value(platform) {
            Ok(InterfaceType::Slip)
        } else if v == InterfaceType::Atm.value(platform) {
            Ok(InterfaceType::Atm)
        } else if v == InterfaceType::GenericModem.value(platform) {
            Ok(InterfaceType::GenericModem)
        } else if v == InterfaceType::FastEthernetT.value(platform) {
            Ok(InterfaceType::FastEthernetT)
        } else if v == InterfaceType::Isdn.value(platform) {
            Ok(InterfaceType::Isdn)
        } else if v == InterfaceType::FastEthernetFx.value(platform) {
            Ok(InterfaceType::FastEthernetFx)
        } else if v == InterfaceType::Wireless80211.value(platform) {
            Ok(InterfaceType::Wireless80211)
        } else if v == InterfaceType::AsymmetricDsl.value(platform) {
            Ok(InterfaceType::AsymmetricDsl)
        } else if v == InterfaceType::RateAdaptDsl.value(platform) {
            Ok(InterfaceType::RateAdaptDsl)
        } else if v == InterfaceType::SymmetricDsl.value(platform) {
            Ok(InterfaceType::SymmetricDsl)
        } else if v == InterfaceType::VeryHighSpeedDsl.value(platform) {
            Ok(InterfaceType::VeryHighSpeedDsl)
        } else if v == InterfaceType::IPOverAtm.value(platform) {
            Ok(InterfaceType::IPOverAtm)
        } else if v == InterfaceType::GigabitEthernet.value(platform) {
            Ok(InterfaceType::GigabitEthernet)
        } else if v == InterfaceType::Tunnel.value(platform) {
            Ok(InterfaceType::Tunnel)
        } else if v == InterfaceType::MultiRateSymmetricDsl.value(platform) {
            Ok(InterfaceType::MultiRateSymmetricDsl)
        } else if v == InterfaceType::HighPerformanceSerialBus.value(platform) {
            Ok(InterfaceType::HighPerformanceSerialBus)
        } else if v == InterfaceType::Wman.value(platform) {
            Ok(InterfaceType::Wman)
        } else if v == InterfaceType::Wwanpp.value(platform) {
            Ok(InterfaceType::Wwanpp)
        } else if v == InterfaceType::Wwanpp2.value(platform) {
            Ok(InterfaceType::Wwanpp2)
        } else {
            Err(ConversionError)
        }
    }
}

/// Law: on every platform family, converting a variant's numeric code
/// back through `from_value` returns that variant, provided no other
/// variant of the table shares the code.
#[verifier::rlimit(50)]
pub proof fn lemma_value_round_trip(platform: Platform, t: InterfaceType)
    requires
        forall|u: InterfaceType| u != t ==> #[trigger] spec_value(platform, u) != spec_value(
            platform,
            t,
        ),
    ensures
        spec_from_value(platform, spec_value(platform, t)) == Ok::<
            InterfaceType,
            ConversionError,
        >(t),
{
}

} // verus!
