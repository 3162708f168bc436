use crate::mac::MacAddr;
use vstd::prelude::*;

verus! {

/// An IPv4 address as its four octets.
#[derive(Clone, Copy, Debug, PartialEq, Eq, Structural)]
pub struct Ipv4Address(pub u8, pub u8, pub u8, pub u8);

/// An IPv6 address as its eight 16-bit segments.
#[derive(Clone, Copy, Debug, PartialEq, Eq, Structural)]
pub struct Ipv6Address(
    pub u16,
    pub u16,
    pub u16,
    pub u16,
    pub u16,
    pub u16,
    pub u16,
    pub u16,
);

/// Either kind of IP address.
#[derive(Clone, Copy, Debug, PartialEq, Eq, Structural)]
pub enum IpAddress {
    /// An IPv4 address.
    V4(Ipv4Address),
    /// An IPv6 address.
    V6(Ipv6Address),
}

/// The address-family code of IPv4 socket addresses.
pub const AF_INET: u32 = 2;

/// The link-layer address-family code on the Linux family.
pub const AF_PACKET: u32 = 17;

/// The address-family code of IPv6 socket addresses on the Linux family.
pub const AF_INET6: u32 = 10;

/// The link-layer address-family code on the BSD family.
pub const AF_LINK: u32 = 18;

/// The address-family code of IPv6 socket addresses on the Darwin
/// members of the BSD family.
pub const AF_INET6_BSD: u32 = 30;

/// How the platform lays out its link-layer socket addresses: at a
/// fixed offset on the Linux family, after a variable-length name field
/// on the BSD family.
#[derive(Clone, Copy, Debug, PartialEq, Eq, Structural)]
pub enum SockaddrLayout {
    /// Linux-family layout.
    Linux,
    /// BSD-family layout.
    Bsd,
}

/// The raw bytes of one OS-reported socket address structure, with the
/// address-family tag read from its family field.
pub struct SockaddrData {
    /// The address-family code.
    pub family: u32,
    /// The bytes of the whole structure, from its first byte.
    pub data: Vec<u8>,
}

/// Mathematical image of `SockaddrData`.
pub ghost struct SockaddrView {
    pub family: u32,
    pub data: Seq<u8>,
}

impl View for SockaddrData {
    type V = SockaddrView;

    open spec fn view(&self) -> SockaddrView {
        SockaddrView { family: self.family, data: self.data@ }
    }
}

/// One OS-reported per-address record: an interface name and the raw
/// socket address, absent where the OS supplied no address.
pub struct AddressRecord {
    /// The interface name the record belongs to.
    pub name: String,
    /// The raw socket address, or `None` for a null address.
    pub sockaddr: Option<SockaddrData>,
}

/// Mathematical image of `AddressRecord`.
pub ghost struct RecordView {
    pub name: Seq<char>,
    pub sockaddr: Option<SockaddrView>,
}

impl View for AddressRecord {
    type V = RecordView;

    open spec fn view(&self) -> RecordView {
        RecordView {
            name: self.name@,
            sockaddr: match self.sockaddr {
                Option::Some(ref sa) => Option::Some(sa@),
                Option::None => Option::None,
            },
        }
    }
}

/// The six bytes starting at `off`, as a hardware address.
pub open spec fn spec_mac_at(d: Seq<u8>, off: int) -> MacAddr {
    MacAddr(d[off], d[off + 1], d[off + 2], d[off + 3], d[off + 4], d[off + 5])
}

/// The four bytes starting at `off`, as an IPv4 address.
pub open spec fn spec_v4_at(d: Seq<u8>, off: int) -> Ipv4Address {
    Ipv4Address(d[off], d[off + 1], d[off + 2], d[off + 3])
}

/// The big-endian 16-bit segment at `off`.
pub open spec fn spec_v6_seg(d: Seq<u8>, off: int) -> u16 {
    (d[off] * 256 + d[off + 1]) as u16
}

/// The sixteen bytes starting at `off`, as an IPv6 address of eight
/// big-endian segments.
pub open spec fn spec_v6_at(d: Seq<u8>, off: int) -> Ipv6Address {
    Ipv6Address(
        spec_v6_seg(d, off),
        spec_v6_seg(d, off + 2),
        spec_v6_seg(d, off + 4),
        spec_v6_seg(d, off + 6),
        spec_v6_seg(d, off + 8),
        spec_v6_seg(d, off + 10),
        spec_v6_seg(d, off + 12),
        spec_v6_seg(d, off + 14),
    )
}

/// What one raw socket address resolves to under the given layout:
/// either a hardware address, or an IP address, or neither — never both.
///
/// On the Linux family the link-layer bytes sit at the fixed offset 12
/// of the structure; on the BSD family they follow the interface name
/// field, whose length is the byte at offset 5 of the structure. IPv4
/// bytes sit at offset 4, IPv6 bytes at offset 8, on both families. A
/// structure too short for its family's fields, or an unrecognized
/// family, resolves to neither.
pub open spec fn spec_resolve_sockaddr(layout: SockaddrLayout, sa: SockaddrView) -> (Option<
    MacAddr,
>, Option<IpAddress>) {
    match layout {
        SockaddrLayout::Linux => {
            if sa.family == AF_PACKET {
                if sa.data.len() >= 18 {
                    (Some(spec_mac_at(sa.data, 12)), None)
                } else {
                    (None, None)
                }
            } else if sa.family == AF_INET {
                if sa.data.len() >= 8 {
                    (None, Some(IpAddress::V4(spec_v4_at(sa.data, 4))))
                } else {
                    (None, None)
                }
            } else if sa.family == AF_INET6 {
                if sa.data.len() >= 24 {
                    (None, Some(IpAddress::V6(spec_v6_at(sa.data, 8))))
                } else {
                    (None, None)
                }
            } else {
                (None, None)
            }
        },
        SockaddrLayout::Bsd => {
            if sa.family == AF_LINK {
                if sa.data.len() >= 6 && sa.data.len() >= 14 + sa.data[5] {
                    (Some(spec_mac_at(sa.data, 8 + sa.data[5])), None)
                } else {
                    (None, None)
                }
            } else if sa.family == AF_INET {
                if sa.data.len() >= 8 {
                    (None, Some(IpAddress::V4(spec_v4_at(sa.data, 4))))
                } else {
                    (None, None)
                }
            } else if sa.family == AF_INET6_BSD {
                if sa.data.len() >= 24 {
                    (None, Some(IpAddress::V6(spec_v6_at(sa.data, 8))))
                } else {
                    (None, None)
                }
            } else {
                (None, None)
            }
        },
    }
}

/// `spec_resolve_sockaddr` lifted over an absent address: a null
/// address resolves to neither kind.
pub open spec fn spec_resolve(layout: SockaddrLayout, sa: Option<SockaddrView>) -> (Option<
    MacAddr,
>, Option<IpAddress>) {
    match sa {
        Option::Some(s) => spec_resolve_sockaddr(layout, s),
        Option::None => (None, None),
    }
}

/// Law: resolving one record never populates both sides — a record
/// carries a hardware address, or an IP address, or neither.
pub proof fn lemma_resolve_never_both(layout: SockaddrLayout, sa: Option<SockaddrView>)
    ensures
        !(spec_resolve(layout, sa).0 is Some && spec_resolve(layout, sa).1 is Some),
{
}

/// Extract from one raw socket address whatever it carries under the
/// given layout: a hardware address for the link-layer family, an IP
/// address for the IPv4 and IPv6 families, neither otherwise or when
/// the structure is absent or too short.
pub fn sockaddr_to_network_addr(layout: SockaddrLayout, sa: &Option<SockaddrData>) -> (r: (
    Option<MacAddr>,
    Option<IpAddress>,
))
    ensures
        r == spec_resolve(
            layout,
            match *sa {
                Option::Some(ref s) => Option::Some(s@),
                Option::None => Option::None,
            },
        ),
{
    match sa {
        Option::None => (None, None),
        Option::Some(s) => {
            let d = &s.data;
            match layout {
                SockaddrLayout::Linux => {
                    if s.family == AF_PACKET {
                        if d.len() >= 18 {
                            (
                                Some(
                                    MacAddr(d[12], d[13], d[14], d[15], d[16], d[17]),
                                ),
                                None,
                            )
                        } else {
                            (None, None)
                        }
                    } else if s.family == AF_INET {
                        if d.len() >= 8 {
                            (None, Some(IpAddress::V4(Ipv4Address(d[4], d[5], d[6], d[7]))))
                        } else {
                            (None, None)
                        }
                    } else if s.family == AF_INET6 {
                        if d.len() >= 24 {
                            (None, Some(IpAddress::V6(read_v6(d))))
                        } else {
                            (None, None)
                        }
                    } else {
                        (None, None)
                    }
                },
                SockaddrLayout::Bsd => {
                    if s.family == AF_LINK {
                        if d.len() >= 6 {
                            let nlen = d[5] as usize;
                            if d.len() >= 14 + nlen {
                                let o = 8 + nlen;
                                (
                                    Some(
                                        MacAddr(
                                            d[o],
                                            d[o + 1],
                                            d[o + 2],
                                            d[o + 3],
                                            d[o + 4],
                                            d[o + 5],
                                        ),
                                    ),
                                    None,
                                )
                            } else {
                                (None, None)
                            }
                        } else {
                            (None, None)
                        }
                    } else if s.family == AF_INET {
                        if d.len() >= 8 {
                            (None, Some(IpAddress::V4(Ipv4Address(d[4], d[5], d[6], d[7]))))
                        } else {
                            (None, None)
                        }
                    } else if s.family == AF_INET6_BSD {
                        if d.len() >= 24 {
                            (None, Some(IpAddress::V6(read_v6(d))))
                        } else {
                            (None, None)
                        }
                    } else {
                        (None, None)
                    }
                },
            }
        },
    }
}

/// One logical network interface, folded out of the OS address records.
///
/// Constructed solely by `interfaces`; the caller owns the result.
#[derive(Debug)]
pub struct Interface {
    /// OS interface index; zero until resolved.
    pub index: u32,
    /// Interface name: the merge key, unique in one enumeration.
    pub name: String,
    /// Optional human-readable description.
    pub description: Option<String>,
    /// Hardware address, where a link-layer record was seen; a later
    /// link-layer record for the same name overwrites it.
    pub mac_addr: Option<MacAddr>,
    /// IPv4 addresses in record order; duplicates are kept.
    pub ipv4: Vec<Ipv4Address>,
    /// IPv6 addresses in record order; duplicates are kept.
    pub ipv6: Vec<Ipv6Address>,
    /// Default gateway, where known.
    pub gateway: Option<IpAddress>,
}

/// Mathematical image of `Interface`.
pub ghost struct InterfaceView {
    pub index: u32,
    pub name: Seq<char>,
    pub description: Option<Seq<char>>,
    pub mac_addr: Option<MacAddr>,
    pub ipv4: Seq<Ipv4Address>,
    pub ipv6: Seq<Ipv6Address>,
    pub gateway: Option<IpAddress>,
}

impl View for Interface {
    type V = InterfaceView;

    open spec fn view(&self) -> InterfaceView {
        InterfaceView {
            index: self.index,
            name: self.name@,
            description: match self.description {
                Option::Some(ref d) => Option::Some(d@),
                Option::None => Option::None,
            },
            mac_addr: self.mac_addr,
            ipv4: self.ipv4@,
            ipv6: self.ipv6@,
            gateway: self.gateway,
        }
    }
}

/// The views of a sequence of interfaces.
pub open spec fn views_of_interfaces(s: Seq<Interface>) -> Seq<InterfaceView> {
    s.map_values(|f: Interface| f@)
}

/// The views of a sequence of address records.
pub open spec fn views_of_records(s: Seq<AddressRecord>) -> Seq<RecordView> {
    s.map_values(|r: AddressRecord| r@)
}

/// The fresh entity seeded from one record: placeholder index, no
/// description, no gateway, and whichever single address was resolved.
pub open spec fn spec_seed_interface(
    name: Seq<char>,
    mac: Option<MacAddr>,
    ip: Option<IpAddress>,
) -> InterfaceView {
    InterfaceView {
        index: 0,
        name: name,
        description: None,
        mac_addr: mac,
        ipv4: match ip {
            Option::Some(IpAddress::V4(a)) => seq![a],
            _ => Seq::empty(),
        },
        ipv6: match ip {
            Option::Some(IpAddress::V6(a)) => seq![a],
            _ => Seq::empty(),
        },
        gateway: None,
    }
}

/// An existing entity after one more record for its name: a resolved
/// hardware address overwrites the old one, a resolved IP address is
/// appended to its family's sequence, and nothing else changes.
pub open spec fn spec_merge_into(
    e: InterfaceView,
    mac: Option<MacAddr>,
    ip: Option<IpAddress>,
) -> InterfaceView {
    InterfaceView {
        mac_addr: if mac is Some { mac } else { e.mac_addr },
        ipv4: match ip {
            Option::Some(IpAddress::V4(a)) => e.ipv4.push(a),
            _ => e.ipv4,
        },
        ipv6: match ip {
            Option::Some(IpAddress::V6(a)) => e.ipv6.push(a),
            _ => e.ipv6,
        },
        ..e
    }
}

/// Index of the first entity carrying `name`, or -1 when none does.
pub open spec fn spec_find_name(s: Seq<InterfaceView>, name: Seq<char>) -> int
    decreases s.len(),
{
    if s.len() == 0 {
        -1
    } else if s[0].name == name {
        0
    } else {
        let r = spec_find_name(s.drop_first(), name);
        if r < 0 {
            -1
        } else {
            r + 1
        }
    }
}

/// `spec_find_name` returns -1 exactly when the name is absent, and
/// otherwise the first index carrying it.
pub proof fn lemma_find_name_props(s: Seq<InterfaceView>, name: Seq<char>)
    ensures
        spec_find_name(s, name) == -1 || 0 <= spec_find_name(s, name) < s.len(),
        spec_find_name(s, name) == -1 ==> forall|k: int|
            0 <= k < s.len() ==> (#[trigger] s[k]).name != name,
        spec_find_name(s, name) >= 0 ==> s[spec_find_name(s, name)].name == name,
        spec_find_name(s, name) >= 0 ==> forall|k: int|
            0 <= k < spec_find_name(s, name) ==> (#[trigger] s[k]).name != name,
    decreases s.len(),
{
    if s.len() > 0 && s[0].name != name {
        let t = s.drop_first();
        lemma_find_name_props(t, name);
        assert forall|k: int| 1 <= k < s.len() implies #[trigger] s[k] == t[k - 1] by {}
    }
}

/// One merge step: fold one record into the accumulated entities —
/// merge in place when an entity already carries the record's name,
/// append a fresh entity otherwise.
pub open spec fn spec_merge_step(
    acc: Seq<InterfaceView>,
    layout: SockaddrLayout,
    rec: RecordView,
) -> Seq<InterfaceView> {
    let (mac, ip) = spec_resolve(layout, rec.sockaddr);
    let j = spec_find_name(acc, rec.name);
    if j < 0 {
        acc.push(spec_seed_interface(rec.name, mac, ip))
    } else {
        acc.update(j, spec_merge_into(acc[j], mac, ip))
    }
}

/// The merge of a whole record sequence, one record at a time, in the
/// order the OS supplied them.
pub open spec fn spec_merge_records(layout: SockaddrLayout, rs: Seq<RecordView>) -> Seq<
    InterfaceView,
>
    decreases rs.len(),
{
    if rs.len() == 0 {
        Seq::empty()
    } else {
        spec_merge_step(spec_merge_records(layout, rs.drop_last()), layout, rs.last())
    }
}

/// Folding one more record is one more merge step.
pub proof fn lemma_merge_records_push(layout: SockaddrLayout, rs: Seq<RecordView>, r: RecordView)
    ensures
        spec_merge_records(layout, rs.push(r)) == spec_merge_step(
            spec_merge_records(layout, rs),
            layout,
            r,
        ),
{
    assert(rs.push(r).drop_last() =~= rs);
    assert(rs.push(r).last() == r);
}

/// Position of the entity already carrying `name`, or `None`.
fn find_by_name(ifaces: &Vec<Interface>, name: &String) -> (r: Option<usize>)
    ensures
        match r {
            Option::Some(u) => spec_find_name(views_of_interfaces(ifaces@), name@) == u,
            Option::None => spec_find_name(views_of_interfaces(ifaces@), name@) == -1,
        },
{
    proof {
        lemma_find_name_props(views_of_interfaces(ifaces@), name@);
    }
    let mut j: usize = 0;
    while j < ifaces.len()
        invariant
            j <= ifaces@.len(),
            forall|k: int| 0 <= k < j ==> (#[trigger] ifaces@[k])@.name != name@,
        decreases ifaces@.len() - j,
    {
        if ifaces[j].name == *name {
            proof {
                let vs = views_of_interfaces(ifaces@);
                lemma_find_name_props(vs, name@);
                assert(vs[j as int].name == name@);
                assert(forall|k: int| 0 <= k < j ==> (#[trigger] vs[k]).name != name@);
            }
            return Some(j);
        }
        j = j + 1;
    }
    proof {
        let vs = views_of_interfaces(ifaces@);
        assert(forall|k: int| 0 <= k < vs.len() ==> (#[trigger] vs[k]).name != name@);
    }
    None
}

/// Fold a sequence of OS address records into one interface entity per
/// distinct name, exactly as `spec_merge_records` describes: records
/// are taken in the order given; the first record of a name seeds its
/// entity; later records for the same name overwrite its hardware
/// address or append their IP address. Enumeration never fails: records
/// that resolve to nothing still create or keep their entity.
pub fn interfaces(layout: SockaddrLayout, records: &Vec<AddressRecord>) -> (r: Vec<Interface>)
    ensures
        views_of_interfaces(r@) == spec_merge_records(layout, views_of_records(records@)),
{
    let mut ifaces: Vec<Interface> = Vec::new();
    let n = records.len();
    let mut i: usize = 0;
    while i < n
        invariant
            i <= n,
            n == records@.len(),
            views_of_interfaces(ifaces@) == spec_merge_records(
                layout,
                views_of_records(records@).take(i as int),
            ),
        decreases n - i,
    {
        let ghost pre = views_of_interfaces(ifaces@);
        let ghost rv = views_of_records(records@);
        let rec = &records[i];
        let resolved = sockaddr_to_network_addr(layout, &rec.sockaddr);
        let mac = resolved.0;
        let ip = resolved.1;
        proof {
            assert(rec@ == rv[i as int]);
            assert(rv.take(i + 1) =~= rv.take(i as int).push(rv[i as int]));
            lemma_merge_records_push(layout, rv.take(i as int), rv[i as int]);
        }
        match find_by_name(&ifaces, &rec.name) {
            Some(j) => {
                proof {
                    lemma_find_name_props(pre, rec@.name);
                    assert(0 <= j < ifaces@.len());
                    assert(pre[j as int] == ifaces@[j as int]@);
                }
                let mut entry = Interface {
                    index: 0,
                    name: String::new(),
                    description: None,
                    mac_addr: None,
                    ipv4: Vec::new(),
                    ipv6: Vec::new(),
                    gateway: None,
                };
                ifaces.set_and_swap(j, &mut entry);
                if let Some(m) = mac {
                    entry.mac_addr = Some(m);
                }
                match ip {
                    Some(IpAddress::V4(a)) => entry.ipv4.push(a),
                    Some(IpAddress::V6(a)) => entry.ipv6.push(a),
                    None => (),
                }
                proof {
                    assert(entry@ == spec_merge_into(pre[j as int], mac, ip));
                }
                ifaces.set(j, entry);
                proof {
                    assert(views_of_interfaces(ifaces@) =~= pre.update(
                        j as int,
                        spec_merge_into(pre[j as int], mac, ip),
                    ));
                }
            },
            None => {
                let mut ini_ipv4: Vec<Ipv4Address> = Vec::new();
                let mut ini_ipv6: Vec<Ipv6Address> = Vec::new();
                match ip {
                    Some(IpAddress::V4(a)) => ini_ipv4.push(a),
                    Some(IpAddress::V6(a)) => ini_ipv6.push(a),
                    None => (),
                }
                let fresh = Interface {
                    index: 0,
                    name: rec.name.clone(),
                    description: None,
                    mac_addr: mac,
                    ipv4: ini_ipv4,
                    ipv6: ini_ipv6,
                    gateway: None,
                };
                proof {
                    assert(fresh@.ipv4 =~= spec_seed_interface(rec@.name, mac, ip).ipv4);
                    assert(fresh@.ipv6 =~= spec_seed_interface(rec@.name, mac, ip).ipv6);
                    assert(fresh@ == spec_seed_interface(rec@.name, mac, ip));
                }
                ifaces.push(fresh);
                proof {
                    assert(views_of_interfaces(ifaces@) =~= pre.push(
                        spec_seed_interface(rec@.name, mac, ip),
                    ));
                }
            },
        }
        i = i + 1;
    }
    proof {
        assert(views_of_records(records@).take(n as int) =~= views_of_records(records@));
    }
    ifaces
}

/// The entity with its index replaced where a lookup answer arrived.
pub open spec fn spec_with_index(e: InterfaceView, lookup: Option<u32>) -> InterfaceView {
    match lookup {
        Option::Some(x) => InterfaceView { index: x, ..e },
        Option::None => e,
    }
}

/// Give each interface the index its name-to-index OS query answered
/// with; where the query failed, the placeholder index stays.
pub fn apply_indices(ifaces: Vec<Interface>, lookups: &Vec<Option<u32>>) -> (r: Vec<Interface>)
    requires
        ifaces@.len() == lookups@.len(),
    ensures
        r@.len() == ifaces@.len(),
        forall|k: int|
            0 <= k < r@.len() ==> (#[trigger] r@[k])@ == spec_with_index(
                ifaces@[k]@,
                lookups@[k],
            ),
{
    let ghost orig = ifaces@;
    let mut rest = ifaces;
    let mut out: Vec<Interface> = Vec::new();
    let mut k: usize = 0;
    let n = lookups.len();
    while k < n
        invariant
            k <= n,
            n == lookups@.len(),
            n == orig.len(),
            rest@ == orig.skip(k as int),
            out@.len() == k,
            forall|t: int|
                0 <= t < k ==> (#[trigger] out@[t])@ == spec_with_index(orig[t]@, lookups@[t]),
        decreases n - k,
    {
        proof {
            assert(rest@.len() == orig.len() - k);
            assert(rest@[0] == orig[k as int]);
        }
        let mut f = rest.remove(0);
        match lookups[k] {
            Some(x) => {
                f.index = x;
            },
            None => (),
        }
        out.push(f);
        k = k + 1;
        proof {
            assert(rest@ =~= orig.skip(k as int));
        }
    }
    out
}

/// Law: within one merge, the interface name is the key — the merged
/// result never holds two entities with the same name.
pub proof fn lemma_merge_names_unique(layout: SockaddrLayout, rs: Seq<RecordView>)
    ensures
        forall|a: int, b: int|
            0 <= a < b < spec_merge_records(layout, rs).len() ==> (#[trigger] spec_merge_records(
                layout,
                rs,
            )[a]).name != (#[trigger] spec_merge_records(layout, rs)[b]).name,
    decreases rs.len(),
{
    if rs.len() > 0 {
        lemma_merge_names_unique(layout, rs.drop_last());
        let acc = spec_merge_records(layout, rs.drop_last());
        let rec = rs.last();
        let out = spec_merge_records(layout, rs);
        lemma_find_name_props(acc, rec.name);
        let j = spec_find_name(acc, rec.name);
        if j < 0 {
            assert(forall|k: int| 0 <= k < acc.len() ==> (#[trigger] out[k]) == acc[k]);
            assert(out[acc.len() as int].name == rec.name);
        } else {
            assert(forall|k: int|
                0 <= k < out.len() ==> (#[trigger] out[k]).name == acc[k].name);
        }
    }
}

/// Law: a hardware-address record and an IP-address record for the same
/// interface name merge into a single entity that carries both: the
/// hardware address, and the one IP address in its family's sequence.
pub proof fn lemma_merge_mac_then_ipv4(
    layout: SockaddrLayout,
    r1: RecordView,
    r2: RecordView,
    m: MacAddr,
    a: Ipv4Address,
)
    requires
        r1.name == r2.name,
        spec_resolve(layout, r1.sockaddr) == (Some(m), None::<IpAddress>),
        spec_resolve(layout, r2.sockaddr) == (None::<MacAddr>, Some(IpAddress::V4(a))),
    ensures
        spec_merge_records(layout, seq![r1, r2]).len() == 1,
        spec_merge_records(layout, seq![r1, r2])[0].name == r1.name,
        spec_merge_records(layout, seq![r1, r2])[0].mac_addr == Some(m),
        spec_merge_records(layout, seq![r1, r2])[0].ipv4 == seq![a],
        spec_merge_records(layout, seq![r1, r2])[0].ipv6 == Seq::<Ipv6Address>::empty(),
{
    let rs = seq![r1, r2];
    assert(rs.drop_last() =~= seq![r1]);
    assert(seq![r1].drop_last() =~= Seq::<RecordView>::empty());
    assert(spec_merge_records(layout, Seq::<RecordView>::empty()) == Seq::<
        InterfaceView,
    >::empty());
    let one = spec_merge_records(layout, seq![r1]);
    assert(seq![r1].last() == r1);
    assert(one == spec_merge_step(Seq::<InterfaceView>::empty(), layout, r1));
    assert(spec_find_name(Seq::<InterfaceView>::empty(), r1.name) == -1);
    assert(one =~= seq![spec_seed_interface(r1.name, Some(m), None)]);
    let out = spec_merge_records(layout, rs);
    assert(rs.last() == r2);
    assert(out == spec_merge_step(one, layout, r2));
    assert(spec_find_name(one, r2.name) == 0);
    assert(out[0].ipv4 =~= seq![a]);
    assert(out[0].ipv6 =~= Seq::<Ipv6Address>::empty());
}

/// Law: feeding the same IP-address record twice for one name yields a
/// single entity whose address sequence holds the address twice —
/// duplicates are kept, not collapsed.
pub proof fn lemma_merge_duplicate_ipv4(layout: SockaddrLayout, r: RecordView, a: Ipv4Address)
    requires
        spec_resolve(layout, r.sockaddr) == (None::<MacAddr>, Some(IpAddress::V4(a))),
    ensures
        spec_merge_records(layout, seq![r, r]).len() == 1,
        spec_merge_records(layout, seq![r, r])[0].name == r.name,
        spec_merge_records(layout, seq![r, r])[0].ipv4 == seq![a, a],
{
    let rs = seq![r, r];
    assert(rs.drop_last() =~= seq![r]);
    assert(seq![r].drop_last() =~= Seq::<RecordView>::empty());
    assert(spec_merge_records(layout, Seq::<RecordView>::empty()) == Seq::<
        InterfaceView,
    >::empty());
    let one = spec_merge_records(layout, seq![r]);
    assert(seq![r].last() == r);
    assert(one == spec_merge_step(Seq::<InterfaceView>::empty(), layout, r));
    assert(spec_find_name(Seq::<InterfaceView>::empty(), r.name) == -1);
    assert(one =~= seq![spec_seed_interface(r.name, None, Some(IpAddress::V4(a)))]);
    let out = spec_merge_records(layout, rs);
    assert(rs.last() == r);
    assert(out == spec_merge_step(one, layout, r));
    assert(spec_find_name(one, r.name) == 0);
    assert(out[0].ipv4 =~= seq![a, a]);
}

/// Read the eight big-endian IPv6 segments at offset 8.
fn read_v6(d: &Vec<u8>) -> (r: Ipv6Address)
    requires
        d@.len() >= 24,
    ensures
        r == spec_v6_at(d@, 8),
{
    Ipv6Address(
        (d[8] as u16) * 256 + (d[9] as u16),
        (d[10] as u16) * 256 + (d[11] as u16),
        (d[12] as u16) * 256 + (d[13] as u16),
        (d[14] as u16) * 256 + (d[15] as u16),
        (d[16] as u16) * 256 + (d[17] as u16),
        (d[18] as u16) * 256 + (d[19] as u16),
        (d[20] as u16) * 256 + (d[21] as u16),
        (d[22] as u16) * 256 + (d[23] as u16),
    )
}

} // verus!
