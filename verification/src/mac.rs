use vstd::assert_by_contradiction;
use vstd::prelude::*;

verus! {

/// True of the characters that may appear in a hexadecimal octet.
pub open spec fn is_hex_digit(c: char) -> bool {
    ('0' <= c && c <= '9') || ('a' <= c && c <= 'f') || ('A' <= c && c <= 'F')
}

/// Numeric value of one hexadecimal digit character.
pub open spec fn hex_val(c: char) -> u8
    recommends
        is_hex_digit(c),
{
    if '0' <= c && c <= '9' {
        (c as u8 - '0' as u8) as u8
    } else if 'a' <= c && c <= 'f' {
        (c as u8 - 'a' as u8 + 10) as u8
    } else {
        (c as u8 - 'A' as u8 + 10) as u8
    }
}

/// Lower-case hexadecimal digit character for a value below 16.
pub open spec fn hex_char_lower(n: u8) -> char
    recommends
        n < 16,
{
    if n < 10 {
        ((n + 48) as u8) as char
    } else {
        ((n + 87) as u8) as char
    }
}

/// The canonical 17-character text form of six octets:
/// lower-case hex pairs separated by colons.
pub open spec fn spec_mac_string(m: Seq<u8>) -> Seq<char>
    recommends
        m.len() == 6,
{
    seq![
        hex_char_lower((m[0] / 16) as u8), hex_char_lower((m[0] % 16) as u8), ':',
        hex_char_lower((m[1] / 16) as u8), hex_char_lower((m[1] % 16) as u8), ':',
        hex_char_lower((m[2] / 16) as u8), hex_char_lower((m[2] % 16) as u8), ':',
        hex_char_lower((m[3] / 16) as u8), hex_char_lower((m[3] % 16) as u8), ':',
        hex_char_lower((m[4] / 16) as u8), hex_char_lower((m[4] % 16) as u8), ':',
        hex_char_lower((m[5] / 16) as u8), hex_char_lower((m[5] % 16) as u8),
    ]
}

/// Both characters of the field starting at position `p` are hex digits.
pub open spec fn hex_pair_at(s: Seq<char>, p: int) -> bool {
    is_hex_digit(s[p]) && is_hex_digit(s[p + 1])
}

/// `s` consists of exactly `k` colon-separated two-hex-digit fields.
pub open spec fn k_hex_fields(s: Seq<char>, k: int) -> bool {
    &&& s.len() == 3 * k - 1
    &&& forall|j: int| 0 <= j < k ==> #[trigger] hex_pair_at(s, 3 * j)
    &&& forall|j: int| 0 <= j < k - 1 ==> #[trigger] s[3 * j + 2] == ':'
}

/// `s` is a full colon-separated MAC address string: six fields of
/// exactly two hex digits each.
pub open spec fn well_formed_mac(s: Seq<char>) -> bool {
    k_hex_fields(s, 6)
}

/// Six valid fields are followed by a colon: a seventh field begins.
pub open spec fn has_extra_field(s: Seq<char>) -> bool {
    &&& s.len() >= 18
    &&& forall|j: int| 0 <= j < 6 ==> #[trigger] hex_pair_at(s, 3 * j)
    &&& forall|j: int| 0 <= j < 6 ==> #[trigger] s[3 * j + 2] == ':'
}

/// `s` ends after fewer than six valid fields.
pub open spec fn too_few_fields(s: Seq<char>) -> bool {
    exists|k: int| 1 <= k < 6 && k_hex_fields(s, k)
}

/// The octet encoded by the two hex digits of field `k`.
pub open spec fn spec_octet_at(s: Seq<char>, k: int) -> u8 {
    (hex_val(s[3 * k]) * 16 + hex_val(s[3 * k + 1])) as u8
}

/// Relies on String::from_utf8: bytes below 0x80 decode to the chars
/// with the same code points.
#[verifier::external_body]
fn ascii_bytes_to_string(v: Vec<u8>) -> (r: String)
    requires
        forall|i: int| 0 <= i < v@.len() ==> v@[i] < 0x80,
    ensures
        r@ == v@.map_values(|b: u8| b as char),
{
    String::from_utf8(v).unwrap_or_default()
}

/// Lower-case hex digit, as its ASCII code, of a value below 16.
fn hex_code(n: u8) -> (c: u8)
    requires
        n < 16,
    ensures
        c == hex_char_lower(n) as u8,
        c < 0x80,
        c as char == hex_char_lower(n),
{
    if n < 10 {
        48 + n
    } else {
        87 + n
    }
}

/// The lower-case hex digit of a value below 16 is a hex digit whose
/// numeric value is that value again.
proof fn lemma_hex_char_lower_props(n: u8)
    requires
        n < 16,
    ensures
        is_hex_digit(hex_char_lower(n)),
        hex_val(hex_char_lower(n)) == n,
{
}

/// Law: the canonical text form of any six octets is a well-formed MAC
/// address string, and parsing it back recovers exactly those octets.
pub proof fn lemma_format_parse_round_trip(m: Seq<u8>)
    requires
        m.len() == 6,
    ensures
        well_formed_mac(spec_mac_string(m)),
        forall|k: int| 0 <= k < 6 ==> #[trigger] spec_octet_at(spec_mac_string(m), k) == m[k],
{
    let s = spec_mac_string(m);
    assert forall|j: int| 0 <= j < 6 implies #[trigger] hex_pair_at(s, 3 * j) by {
        lemma_hex_char_lower_props((m[j] / 16) as u8);
        lemma_hex_char_lower_props((m[j] % 16) as u8);
        assert(s[3 * j] == hex_char_lower((m[j] / 16) as u8));
        assert(s[3 * j + 1] == hex_char_lower((m[j] % 16) as u8));
    }
    assert forall|j: int| 0 <= j < 5 implies #[trigger] s[3 * j + 2] == ':' by {
        assert(s[3 * j + 2] == ':');
    }
    assert(well_formed_mac(s));
    assert forall|k: int| 0 <= k < 6 implies #[trigger] spec_octet_at(s, k) == m[k] by {
        lemma_hex_char_lower_props((m[k] / 16) as u8);
        lemma_hex_char_lower_props((m[k] % 16) as u8);
        assert(s[3 * k] == hex_char_lower((m[k] / 16) as u8));
        assert(s[3 * k + 1] == hex_char_lower((m[k] % 16) as u8));
        assert(m[k] == (m[k] / 16) * 16 + (m[k] % 16));
    }
}

/// A 6-octet hardware (MAC) address.
///
/// Equality is exact byte equality; the derived ordering is
/// byte-lexicographic over the six octets.
#[derive(Clone, Copy, Eq, PartialEq, Structural, PartialOrd, Ord, Hash, Debug)]
pub struct MacAddr(pub u8, pub u8, pub u8, pub u8, pub u8, pub u8);

impl View for MacAddr {
    type V = Seq<u8>;

    open spec fn view(&self) -> Seq<u8> {
        seq![self.0, self.1, self.2, self.3, self.4, self.5]
    }
}

impl MacAddr {
    /// Construct a new `MacAddr` instance.
    pub fn new(a: u8, b: u8, c: u8, d: u8, e: u8, f: u8) -> (r: MacAddr)
        ensures
            r == MacAddr(a, b, c, d, e, f),
    {
        MacAddr(a, b, c, d, e, f)
    }

    /// Construct a new MacAddr instance from the given octets
    pub fn from_octets(octets: [u8; 6]) -> (r: MacAddr)
        ensures
            r@ == octets@,
    {
        let r = MacAddr(octets[0], octets[1], octets[2], octets[3], octets[4], octets[5]);
        proof {
            assert(r@ =~= octets@);
        }
        r
    }

    /// Returns an array of MAC address octets
    pub fn octets(&self) -> (r: [u8; 6])
        ensures
            r@ == self@,
    {
        let r = [self.0, self.1, self.2, self.3, self.4, self.5];
        proof {
            assert(r@ =~= self@);
        }
        r
    }

    /// Return a formatted string of MAC address
    #[verifier::rlimit(50)]
    pub fn address(&self) -> (r: String)
        ensures
            r@ == spec_mac_string(self@),
    {
        let mut v: Vec<u8> = Vec::new();
        let c0 = hex_code(self.0 / 16);
        let c1 = hex_code(self.0 % 16);
        let c2 = hex_code(self.1 / 16);
        let c3 = hex_code(self.1 % 16);
        let c4 = hex_code(self.2 / 16);
        let c5 = hex_code(self.2 % 16);
        let c6 = hex_code(self.3 / 16);
        let c7 = hex_code(self.3 % 16);
        let c8 = hex_code(self.4 / 16);
        let c9 = hex_code(self.4 % 16);
        let c10 = hex_code(self.5 / 16);
        let c11 = hex_code(self.5 % 16);
        v.push(c0);
        v.push(c1);
        v.push(58);
        v.push(c2);
        v.push(c3);
        v.push(58);
        v.push(c4);
        v.push(c5);
        v.push(58);
        v.push(c6);
        v.push(c7);
        v.push(58);
        v.push(c8);
        v.push(c9);
        v.push(58);
        v.push(c10);
        v.push(c11);
        proof {
            assert(v@ =~= seq![
                c0, c1, 58u8, c2, c3, 58u8, c4, c5, 58u8, c6, c7, 58u8, c8, c9, 58u8, c10, c11,
            ]);
            assert(forall|i: int| 0 <= i < v@.len() ==> v@[i] < 0x80);
        }
        let r = ascii_bytes_to_string(v);
        proof {
            assert(58u8 as char == ':');
            assert(r@ =~= spec_mac_string(self@));
        }
        r
    }

    /// Construct an all-zero MacAddr instance
    pub fn zero() -> (r: MacAddr)
        ensures
            r == MacAddr(0, 0, 0, 0, 0, 0),
    {
        MacAddr(0, 0, 0, 0, 0, 0)
    }

    /// Construct a broadcast `MacAddr` instance.
    pub fn broadcast() -> (r: MacAddr)
        ensures
            r == MacAddr(0xff, 0xff, 0xff, 0xff, 0xff, 0xff),
    {
        MacAddr(0xff, 0xff, 0xff, 0xff, 0xff, 0xff)
    }

    /// Parse a colon-separated MAC address string strictly: exactly six
    /// colon-separated fields of exactly two hex digits each, with no
    /// partial success.
    pub fn parse_strict(s: &str) -> (r: Result<MacAddr, ParseMacAddrError>)
        ensures
            r is Ok <==> well_formed_mac(s@),
            well_formed_mac(s@) ==> r == Ok::<MacAddr, ParseMacAddrError>(MacAddr(
                spec_octet_at(s@, 0),
                spec_octet_at(s@, 1),
                spec_octet_at(s@, 2),
                spec_octet_at(s@, 3),
                spec_octet_at(s@, 4),
                spec_octet_at(s@, 5),
            )),
            r == Err::<MacAddr, ParseMacAddrError>(ParseMacAddrError::TooManyComponents)
                <==> has_extra_field(s@),
            r == Err::<MacAddr, ParseMacAddrError>(ParseMacAddrError::TooFewComponents)
                <==> too_few_fields(s@),
            r == Err::<MacAddr, ParseMacAddrError>(ParseMacAddrError::InvalidComponent)
                <==> !well_formed_mac(s@) && !has_extra_field(s@) && !too_few_fields(s@),
    {
        let n = s.unicode_len();
        let mut oct: Vec<u8> = Vec::new();
        let mut count: usize = 0;
        let mut p: usize = 0;
        loop
            invariant_except_break
                n == s@.len(),
                count <= 6,
                oct@.len() == count,
                p == 3 * count,
                p <= n,
                forall|j: int| 0 <= j < count ==> #[trigger] hex_pair_at(s@, 3 * j),
                forall|j: int| 0 <= j < count ==> oct@[j] == spec_octet_at(s@, j),
                forall|j: int| 0 <= j < count ==> #[trigger] s@[3 * j + 2] == ':',
            ensures
                n == s@.len(),
                1 <= count <= 6,
                oct@.len() == count,
                n == 3 * count - 1,
                forall|j: int| 0 <= j < count ==> #[trigger] hex_pair_at(s@, 3 * j),
                forall|j: int| 0 <= j < count ==> oct@[j] == spec_octet_at(s@, j),
                forall|j: int| 0 <= j < count - 1 ==> #[trigger] s@[3 * j + 2] == ':',
            decreases n - p,
        {
            if count == 6 {
                proof {
                    assert(has_extra_field(s@));
                    assert(!too_few_fields(s@));
                }
                return Err(ParseMacAddrError::TooManyComponents);
            }
            let mut e = p;
            while e < n && s.get_char(e) != ':'
                invariant
                    n == s@.len(),
                    p <= e <= n,
                    forall|q: int| p <= q < e ==> s@[q] != ':',
                decreases n - e,
            {
                e = e + 1;
            }
            let field_ok: Option<u8> = if e - p == 2 {
                let d1 = hex_digit_value(s.get_char(p));
                let d2 = hex_digit_value(s.get_char(p + 1));
                match (d1, d2) {
                    (Some(a), Some(b)) => Some(a * 16 + b),
                    _ => None,
                }
            } else {
                None
            };
            match field_ok {
                Some(b) => {
                    proof {
                        assert(b == spec_octet_at(s@, count as int));
                    }
                    oct.push(b);
                    count = count + 1;
                    if e == n {
                        break;
                    }
                    p = e + 1;
                }
                None => {
                    proof {
                        let sv = s@;
                        let pi = p as int;
                        let ei = e as int;
                        let ni = n as int;
                        let ci = count as int;
                        assert(!(ei - pi == 2 && is_hex_digit(sv[pi]) && is_hex_digit(
                            sv[pi + 1],
                        )));
                        assert_by_contradiction!(!well_formed_mac(sv), {
                            assert(hex_pair_at(sv, 3 * ci));
                            if ci < 5 {
                                assert(sv[3 * ci + 2] == ':');
                            }
                            lemma_scan_finds_field(sv, pi, ei, ni);
                        });
                        assert_by_contradiction!(!has_extra_field(sv), {
                            assert(hex_pair_at(sv, 3 * ci));
                            assert(sv[3 * ci + 2] == ':');
                            lemma_scan_finds_field(sv, pi, ei, ni);
                        });
                        assert_by_contradiction!(!too_few_fields(sv), {
                            let k = choose|k: int| 1 <= k < 6 && k_hex_fields(sv, k);
                            assert(k_hex_fields(sv, k));
                            assert(ci <= k - 1);
                            assert(hex_pair_at(sv, 3 * ci));
                            if ci < k - 1 {
                                assert(sv[3 * ci + 2] == ':');
                            }
                            lemma_scan_finds_field(sv, pi, ei, ni);
                        });
                    }
                    return Err(ParseMacAddrError::InvalidComponent);
                }
            }
        }
        if count == 6 {
            proof {
                assert(well_formed_mac(s@));
            }
            Ok(MacAddr(oct[0], oct[1], oct[2], oct[3], oct[4], oct[5]))
        } else {
            proof {
                assert(k_hex_fields(s@, count as int));
                assert(too_few_fields(s@));
            }
            Err(ParseMacAddrError::TooFewComponents)
        }
    }

    /// Construct a new MacAddr instance from a colon-separated string of hex
    /// format; any malformed input yields the zero address instead of an
    /// error.
    pub fn from_hex_format(hex_mac_addr: &str) -> (r: MacAddr)
        ensures
            well_formed_mac(hex_mac_addr@) ==> r == MacAddr(
                spec_octet_at(hex_mac_addr@, 0),
                spec_octet_at(hex_mac_addr@, 1),
                spec_octet_at(hex_mac_addr@, 2),
                spec_octet_at(hex_mac_addr@, 3),
                spec_octet_at(hex_mac_addr@, 4),
                spec_octet_at(hex_mac_addr@, 5),
            ),
            !well_formed_mac(hex_mac_addr@) ==> r == MacAddr(0, 0, 0, 0, 0, 0),
    {
        match MacAddr::parse_strict(hex_mac_addr) {
            Ok(addr) => addr,
            Err(_) => MacAddr(0, 0, 0, 0, 0, 0),
        }
    }
}

/// Decode one hex digit character; `None` for any other character.
fn hex_digit_value(c: char) -> (r: Option<u8>)
    ensures
        r is Some <==> is_hex_digit(c),
        r is Some ==> r.unwrap() == hex_val(c) && r.unwrap() < 16,
{
    let u = c as u32;
    if 48 <= u && u <= 57 {
        Some((u - 48) as u8)
    } else if 97 <= u && u <= 102 {
        Some((u - 87) as u8)
    } else if 65 <= u && u <= 70 {
        Some((u - 55) as u8)
    } else {
        None
    }
}

/// A hex digit is never the field separator.
proof fn lemma_hex_digit_not_colon(c: char)
    ensures
        is_hex_digit(c) ==> c != ':',
{
}

/// A scan that stops only at a colon or at the end, started on a field
/// whose first two characters are hex digits and whose third position is
/// a colon or the end, stops exactly after the two digits.
proof fn lemma_scan_finds_field(s: Seq<char>, p: int, e: int, n: int)
    requires
        n == s.len(),
        0 <= p,
        p + 2 <= n,
        p <= e <= n,
        is_hex_digit(s[p]),
        is_hex_digit(s[p + 1]),
        p + 2 < n ==> s[p + 2] == ':',
        forall|q: int| p <= q < e ==> s[q] != ':',
        e == n || s[e] == ':',
    ensures
        e == p + 2,
{
    lemma_hex_digit_not_colon(s[p]);
    lemma_hex_digit_not_colon(s[p + 1]);
    if e < p + 2 {
        assert(e < n);
        assert(s[e] == ':');
        assert(e == p || e == p + 1);
        assert(false);
    }
    if e > p + 2 {
        if p + 2 < n {
            assert(s[p + 2] != ':');
            assert(false);
        } else {
            assert(false);
        }
    }
}

/// Represents an error which occurred whilst parsing a MAC address
#[derive(Copy, Debug, PartialEq, Eq, Clone, Structural)]
pub enum ParseMacAddrError {
    /// The MAC address has too many components, eg. 00:11:22:33:44:55:66
    TooManyComponents,
    /// The MAC address has too few components, eg. 00:11
    TooFewComponents,
    /// One of the components contains an invalid value, eg. 00:GG:22:33:44:55
    InvalidComponent,
}

impl ParseMacAddrError {
    /// A fixed human-readable account of the error.
    pub fn description(&self) -> (r: &'static str)
        ensures
            *self is TooManyComponents ==> r@ == "Too many components in a MAC address string"@,
            *self is TooFewComponents ==> r@ == "Too few components in a MAC address string"@,
            *self is InvalidComponent ==> r@ == "Invalid component in a MAC address string"@,
    {
        match *self {
            ParseMacAddrError::TooManyComponents => "Too many components in a MAC address string",
            ParseMacAddrError::TooFewComponents => "Too few components in a MAC address string",
            ParseMacAddrError::InvalidComponent => "Invalid component in a MAC address string",
        }
    }
}

impl Default for MacAddr {
    /// The default hardware address is the all-zero address.
    fn default() -> (r: MacAddr)
        ensures
            r == MacAddr(0, 0, 0, 0, 0, 0),
    {
        MacAddr(0, 0, 0, 0, 0, 0)
    }
}

} // verus!

