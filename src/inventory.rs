use vstd::arithmetic::power2::{
    lemma2_to64,
    lemma_pow2_strictly_increases,
    lemma_pow2_unfold,
    pow2,
};
use vstd::prelude::*;

use crate::model::{DnsConfig, InterfaceKind, InterfaceState, Ipv4Config, Ipv4View, NetInterface};
use crate::text::{
    chars_of,
    contains,
    contains_exec,
    eq_exec,
    parse_u32_range,
    parse_u32_spec,
    skip,
    skip_class,
    starts_with,
    starts_with_exec,
    trim,
    trim_vec,
    Class,
    field_after,
    field_after_exec,
    is_space,
    lines_of,
    lines_view,
    split_lines,
    string_of,
    field_text,
    field_text_exec,
    clone_strings,
    pieces,
    split_at_char,
};

verus! {

/// What the per-device marker files say about one interface. Each is read by
/// the caller; a file that is missing or unreadable is `None` or `false`.
pub struct KindMarkers {
    /// The `uevent` file.
    pub uevent: Option<String>,
    /// Whether the `bridge` marker exists.
    pub has_bridge: bool,
    /// The `tun_flags` file.
    pub tun_flags: Option<String>,
    /// The `type` file.
    pub device_type: Option<String>,
    /// Whether the `device` link exists.
    pub has_device: bool,
}

impl KindMarkers {
    /// No marker file at all.
    pub fn absent() -> (r: Self)
        ensures
            r.uevent is None,
            !r.has_bridge,
            r.tun_flags is None,
            r.device_type is None,
            !r.has_device,
    {
        KindMarkers {
            uevent: None,
            has_bridge: false,
            tun_flags: None,
            device_type: None,
            has_device: false,
        }
    }
}

/// The kind that a `tun_flags` value names: `0x1`/`1` a TUN, `0x2`/`2` a TAP device.
pub open spec fn tun_flag_kind(t: Seq<char>) -> Option<InterfaceKind> {
    let f = trim(t);
    if f == "0x1"@ || f == "1"@ {
        Some(InterfaceKind::Tun)
    } else if f == "0x2"@ || f == "2"@ {
        Some(InterfaceKind::Tap)
    } else {
        None
    }
}

/// The kind of interface `name`: the first rule that applies, in this order.
pub open spec fn classify(name: Seq<char>, m: KindMarkers) -> InterfaceKind {
    if name == "lo"@ {
        InterfaceKind::Loopback
    } else if name == "docker0"@ || starts_with(name, "br-"@) {
        InterfaceKind::Docker
    } else if starts_with(name, "wg"@) && (m.uevent matches Some(u) && contains(
        u@,
        "wireguard"@,
    )) {
        InterfaceKind::WireGuard
    } else if starts_with(name, "veth"@) {
        InterfaceKind::Veth
    } else if contains(name, "."@) {
        InterfaceKind::Vlan
    } else if m.has_bridge {
        InterfaceKind::Bridge
    } else if m.tun_flags matches Some(t) && tun_flag_kind(t@) is Some {
        tun_flag_kind(m.tun_flags->0@)->0
    } else if starts_with(name, "tun"@) {
        InterfaceKind::Tun
    } else if starts_with(name, "tap"@) {
        InterfaceKind::Tap
    } else if m.has_device && (m.device_type matches Some(t) && parse_u32_spec(trim(t@)) == Some(
        1u32,
    )) {
        InterfaceKind::Physical
    } else {
        InterfaceKind::Unknown
    }
}

/// Classification goes by the order of its rules: a name that the Docker-bridge
/// rule matches is a Docker bridge, also where a later rule (the dot of a VLAN
/// name, a marker file) would match too.
pub proof fn lemma_docker_rule_precedes_later_rules(name: Seq<char>, m: KindMarkers)
    requires
        name == "docker0"@ || starts_with(name, "br-"@),
    ensures
        classify(name, m) == InterfaceKind::Docker,
{
    reveal_strlit("lo");
    reveal_strlit("docker0");
    reveal_strlit("br-");
    if name == "lo"@ {
        if starts_with(name, "br-"@) {
            assert(name.subrange(0, 3) == "br-"@);
        }
    }
}

fn tun_flag_kind_exec(t: &String) -> (r: Option<InterfaceKind>)
    ensures
        r == tun_flag_kind(t@),
{
    let f = trim_vec(&chars_of(t.as_str()));
    if eq_exec(&f, &chars_of("0x1")) || eq_exec(&f, &chars_of("1")) {
        Some(InterfaceKind::Tun)
    } else if eq_exec(&f, &chars_of("0x2")) || eq_exec(&f, &chars_of("2")) {
        Some(InterfaceKind::Tap)
    } else {
        None
    }
}

/// Classifies interface `name` from its name and its marker files.
pub fn detect_interface_kind(name: &str, markers: &KindMarkers) -> (r: InterfaceKind)
    ensures
        r == classify(name@, *markers),
{
    let n = chars_of(name);
    if eq_exec(&n, &chars_of("lo")) {
        return InterfaceKind::Loopback;
    }
    if eq_exec(&n, &chars_of("docker0")) || starts_with_exec(&n, &chars_of("br-")) {
        return InterfaceKind::Docker;
    }
    if starts_with_exec(&n, &chars_of("wg")) {
        if let Some(u) = &markers.uevent {
            if contains_exec(&chars_of(u.as_str()), &chars_of("wireguard")) {
                return InterfaceKind::WireGuard;
            }
        }
    }
    if starts_with_exec(&n, &chars_of("veth")) {
        return InterfaceKind::Veth;
    }
    if contains_exec(&n, &chars_of(".")) {
        return InterfaceKind::Vlan;
    }
    if markers.has_bridge {
        return InterfaceKind::Bridge;
    }
    if let Some(t) = &markers.tun_flags {
        if let Some(k) = tun_flag_kind_exec(t) {
            return k;
        }
    }
    if starts_with_exec(&n, &chars_of("tun")) {
        return InterfaceKind::Tun;
    }
    if starts_with_exec(&n, &chars_of("tap")) {
        return InterfaceKind::Tap;
    }
    if markers.has_device {
        if let Some(t) = &markers.device_type {
            let tt = trim_vec(&chars_of(t.as_str()));
            let v = parse_u32_range(&tt, 0, tt.len());
            assert(tt@.subrange(0, tt@.len() as int) =~= tt@);
            if v == Some(1u32) {
                return InterfaceKind::Physical;
            }
        }
    }
    InterfaceKind::Unknown
}

/// The 32-bit mask whose `prefix` most significant bits are set; a prefix over
/// 32 sets them all.
pub open spec fn mask_value(prefix: nat) -> nat {
    if prefix >= 32 {
        (pow2(32) - 1) as nat
    } else {
        (pow2(32) - pow2((32 - prefix) as nat)) as nat
    }
}

/// A 32-bit value in dotted-quad notation.
pub open spec fn dotted_quad(m: nat) -> Seq<char> {
    crate::text::decimal(m / 16777216 % 256) + "."@ + crate::text::decimal(m / 65536 % 256) + "."@
        + crate::text::decimal(m / 256 % 256) + "."@ + crate::text::decimal(m % 256)
}

/// The netmask of a prefix length, in dotted-quad notation.
pub fn prefix_to_netmask(prefix: u8) -> (r: String)
    ensures
        r@ == dotted_quad(mask_value(prefix as nat)),
{
    proof {
        lemma2_to64();
    }
    let mask: u64 = if prefix >= 32 {
        0xFFFF_FFFF
    } else {
        let zeros: u8 = 32 - prefix;
        let mut q: u64 = 1;
        let mut i: u8 = 0;
        while i < zeros
            invariant
                i <= zeros <= 32,
                q == pow2(i as nat),
            decreases zeros - i,
        {
            proof {
                lemma2_to64();
                lemma_pow2_unfold((i + 1) as nat);
                lemma_pow2_strictly_increases((i + 1) as nat, 33);
            }
            q = q * 2;
            i = i + 1;
        }
        proof {
            if zeros < 32 {
                lemma_pow2_strictly_increases(zeros as nat, 32);
            }
        }
        0x1_0000_0000 - q
    };
    let mut out = String::new();
    crate::text::push_decimal(&mut out, (mask / 16777216 % 256) as u32);
    out.append(".");
    crate::text::push_decimal(&mut out, (mask / 65536 % 256) as u32);
    out.append(".");
    crate::text::push_decimal(&mut out, (mask / 256 % 256) as u32);
    out.append(".");
    crate::text::push_decimal(&mut out, (mask % 256) as u32);
    out
}


/// The fields of one line of the link listing.
pub struct LinkRecord {
    pub name: String,
    /// What stands between the angle brackets.
    pub flags: String,
    pub mtu: u32,
    pub mac_address: Option<String>,
}

pub struct LinkView {
    pub name: Seq<char>,
    pub flags: Seq<char>,
    pub mtu: u32,
    pub mac_address: Option<Seq<char>>,
}

impl View for LinkRecord {
    type V = LinkView;

    open spec fn view(&self) -> LinkView {
        LinkView {
            name: self.name@,
            flags: self.flags@,
            mtu: self.mtu,
            mac_address: self.mac_address.deep_view(),
        }
    }
}

/// The MAC address of a link line: the 17 characters of hex digits and colons
/// after `link/ether` and whitespace.
pub open spec fn mac_of(l: Seq<char>) -> Option<Seq<char>> {
    match field_after(l, "link/ether"@, 0, Class::HexColon) {
        Some((a, b)) => if b - a >= 17 {
            Some(l.subrange(a, a + 17))
        } else {
            None
        },
        None => None,
    }
}

/// One line of the link listing, `<index>: <name>[@<peer>]: <<flags>> ... mtu <n> ...`,
/// read into its fields; `None` for a line of another shape. The name is
/// trimmed and not empty; the MTU is the number after the first `mtu` that
/// follows the flags.
pub open spec fn link_line(l: Seq<char>) -> Option<LinkView> {
    let d = skip(l, 0, Class::Digit);
    let n0 = skip(l, d + 1, Class::Space);
    let n1 = skip(l, n0, Class::LinkName);
    let p1 = if n1 < l.len() && l[n1] == '@' {
        skip(l, n1 + 1, Class::LinkName)
    } else {
        n1
    };
    let p2 = if p1 < l.len() && l[p1] == ':' {
        p1 + 1
    } else {
        p1
    };
    let lt = skip(l, p2, Class::Space);
    let gt = skip(l, lt + 1, Class::Not('>'));
    let name = trim(l.subrange(n0, n1));
    if 0 < d < l.len() && l[d] == ':' && n0 > d + 1 && name.len() > 0 && lt < l.len() && l[lt]
        == '<' && gt + 1 < l.len() && is_space(l[gt + 1]) {
        match field_after(l, "mtu"@, gt + 1, Class::Digit) {
            Some((a, b)) => match parse_u32_spec(l.subrange(a, b)) {
                Some(mtu) => Some(
                    LinkView { name, flags: l.subrange(lt + 1, gt), mtu, mac_address: mac_of(l) },
                ),
                None => None,
            },
            None => None,
        }
    } else {
        None
    }
}

fn mac_of_exec(l: &Vec<char>) -> (r: Option<String>)
    ensures
        r.deep_view() == mac_of(l@),
{
    match field_after_exec(l, &chars_of("link/ether"), 0, Class::HexColon) {
        Some((a, b)) => if b - a >= 17 {
            Some(string_of(l, a, a + 17))
        } else {
            None
        },
        None => None,
    }
}

/// The MAC address of a link line.
pub fn extract_mac_address(line: &str) -> (r: Option<String>)
    ensures
        r.deep_view() == mac_of(line@),
{
    mac_of_exec(&chars_of(line))
}

fn link_of_chars(l: &Vec<char>) -> (r: Option<LinkRecord>)
    ensures
        match link_line(l@) {
            Some(v) => r is Some && r->0@ == v,
            None => r is None,
        },
{
    let d = skip_class(l, 0, Class::Digit);
    if !(0 < d && d < l.len() && l[d] == ':') {
        return None;
    }
    let n0 = skip_class(l, d + 1, Class::Space);
    if n0 <= d + 1 {
        return None;
    }
    let n1 = skip_class(l, n0, Class::LinkName);
    let p1 = if n1 < l.len() && l[n1] == '@' {
        skip_class(l, n1 + 1, Class::LinkName)
    } else {
        n1
    };
    let p2 = if p1 < l.len() && l[p1] == ':' {
        p1 + 1
    } else {
        p1
    };
    let lt = skip_class(l, p2, Class::Space);
    if !(lt < l.len() && l[lt] == '<') {
        return None;
    }
    let gt = skip_class(l, lt + 1, Class::Not('>'));
    if !(gt < l.len() - 1 && char_in_class_space(l[gt + 1])) {
        return None;
    }
    let name = trim_vec(&crate::text::slice_vec(l, n0, n1));
    if name.len() == 0 {
        return None;
    }
    match field_after_exec(l, &chars_of("mtu"), gt + 1, Class::Digit) {
        Some((a, b)) => match parse_u32_range(l, a, b) {
            Some(mtu) => {
                let rec = LinkRecord {
                    name: string_of(&name, 0, name.len()),
                    flags: string_of(l, lt + 1, gt),
                    mtu,
                    mac_address: mac_of_exec(l),
                };
                assert(name@.subrange(0, name@.len() as int) =~= name@);
                Some(rec)
            },
            None => None,
        },
        None => None,
    }
}

fn char_in_class_space(c: char) -> (r: bool)
    ensures
        r == is_space(c),
{
    crate::text::char_in_class(c, Class::Space)
}

/// Reads one line of the link listing.
pub fn parse_interface_from_link(line: &str) -> (r: Option<LinkRecord>)
    ensures
        match link_line(line@) {
            Some(v) => r is Some && r->0@ == v,
            None => r is None,
        },
{
    link_of_chars(&chars_of(line))
}

/// The records of the lines of a link listing that have the expected shape, in order.
pub open spec fn links_of(lines: Seq<Seq<char>>) -> Seq<LinkView>
    decreases lines.len(),
{
    if lines.len() == 0 {
        seq![]
    } else {
        let prev = links_of(lines.drop_last());
        match link_line(lines.last()) {
            Some(v) => prev.push(v),
            None => prev,
        }
    }
}

/// Reads the link listing; lines of another shape are skipped.
pub fn parse_link_listing(text: &str) -> (r: Vec<LinkRecord>)
    ensures
        r@.map_values(|x: LinkRecord| x@) == links_of(lines_of(text@)),
{
    let lines = split_lines(&chars_of(text));
    let ghost ls = lines_view(lines@);
    let mut out: Vec<LinkRecord> = Vec::new();
    let mut k: usize = 0;
    while k < lines.len()
        invariant
            k <= lines.len(),
            ls == lines_view(lines@),
            out@.map_values(|x: LinkRecord| x@) == links_of(ls.take(k as int)),
        decreases lines.len() - k,
    {
        assert(ls.take(k + 1).drop_last() =~= ls.take(k as int));
        assert(ls.take(k + 1).last() == lines@[k as int]@);
        let rec = link_of_chars(&lines[k]);
        let ghost before = out@;
        if let Some(x) = rec {
            out.push(x);
            assert(out@.map_values(|x: LinkRecord| x@) =~= before.map_values(|x: LinkRecord| x@).push(x@));
        }
        k = k + 1;
    }
    assert(ls.take(k as int) =~= ls);
    out
}

/// The state that a link's flags give: up when they hold `UP`.
pub open spec fn state_of_flags(flags: Seq<char>) -> InterfaceState {
    if contains(flags, "UP"@) {
        InterfaceState::Up
    } else {
        InterfaceState::Down
    }
}

/// The interface record of one link, classified by its marker files.
pub fn interface_from_link(rec: LinkRecord, markers: &KindMarkers) -> (r: NetInterface)
    ensures
        r.name@ == rec.name@,
        r.kind == classify(rec.name@, *markers),
        r.state == state_of_flags(rec.flags@),
        r.mtu == rec.mtu,
        r.mac_address.deep_view() == rec.mac_address.deep_view(),
        r.ipv4_addresses@.len() == 0,
        r.ipv6_addresses@.len() == 0,
        r.owner is None,
        r.config_mode == crate::model::IpConfigMode::Unconfigured,
        r.ipv4_config is None,
        r.dns_config is None,
{
    let kind = detect_interface_kind(rec.name.as_str(), markers);
    let state = if contains_exec(&chars_of(rec.flags.as_str()), &chars_of("UP")) {
        InterfaceState::Up
    } else {
        InterfaceState::Down
    };
    let mut iface = NetInterface::new(rec.name, kind);
    iface.state = state;
    iface.mtu = rec.mtu;
    iface.mac_address = rec.mac_address;
    iface
}


/// The address after `key` in an address line: whitespace, characters of class
/// `k`, a slash and one or more digits.
pub open spec fn address_in(l: Seq<char>, key: Seq<char>, k: Class) -> Option<Seq<char>> {
    match field_after(l, key, 0, k) {
        Some((a, b)) => {
            let c = skip(l, b + 1, Class::Digit);
            if b < l.len() && l[b] == '/' && c > b + 1 {
                Some(l.subrange(a, c))
            } else {
                None
            }
        },
        None => None,
    }
}

pub open spec fn ipv4_in(l: Seq<char>) -> Option<Seq<char>> {
    address_in(l, "inet"@, Class::DottedDigit)
}

pub open spec fn ipv6_in(l: Seq<char>) -> Option<Seq<char>> {
    address_in(l, "inet6"@, Class::HexColon)
}

fn address_in_exec(l: &Vec<char>, key: &str, k: Class) -> (r: Option<String>)
    ensures
        r.deep_view() == address_in(l@, key@, k),
{
    match field_after_exec(l, &chars_of(key), 0, k) {
        Some((a, b)) => {
            if b < l.len() && l[b] == '/' {
                let c = skip_class(l, b + 1, Class::Digit);
                if c > b + 1 {
                    return Some(string_of(l, a, c));
                }
            }
            None
        },
        None => None,
    }
}

/// The IPv4 address with its prefix length (`a.b.c.d/n`) in an address line.
pub fn extract_ipv4_address(line: &str) -> (r: Option<String>)
    ensures
        r.deep_view() == ipv4_in(line@),
{
    address_in_exec(&chars_of(line), "inet", Class::DottedDigit)
}

/// The IPv6 address with its prefix length in an address line.
pub fn extract_ipv6_address(line: &str) -> (r: Option<String>)
    ensures
        r.deep_view() == ipv6_in(line@),
{
    address_in_exec(&chars_of(line), "inet6", Class::HexColon)
}

/// The IPv4 addresses of an address listing: one from each line with an `inet ` marker.
pub open spec fn ipv4_list(lines: Seq<Seq<char>>) -> Seq<Seq<char>>
    decreases lines.len(),
{
    if lines.len() == 0 {
        seq![]
    } else {
        let prev = ipv4_list(lines.drop_last());
        let l = lines.last();
        if contains(l, "inet "@) && ipv4_in(l) is Some {
            prev.push(ipv4_in(l)->0)
        } else {
            prev
        }
    }
}

/// The IPv6 addresses of an address listing: one from each line with an
/// `inet6 ` marker and no `inet ` one.
pub open spec fn ipv6_list(lines: Seq<Seq<char>>) -> Seq<Seq<char>>
    decreases lines.len(),
{
    if lines.len() == 0 {
        seq![]
    } else {
        let prev = ipv6_list(lines.drop_last());
        let l = lines.last();
        if !contains(l, "inet "@) && contains(l, "inet6 "@) && ipv6_in(l) is Some {
            prev.push(ipv6_in(l)->0)
        } else {
            prev
        }
    }
}

/// The addresses that an address listing assigns, in the order it lists them.
pub struct AddressListing {
    pub ipv4: Vec<String>,
    pub ipv6: Vec<String>,
}

pub fn parse_address_listing(text: &str) -> (r: AddressListing)
    ensures
        r.ipv4.deep_view() == ipv4_list(lines_of(text@)),
        r.ipv6.deep_view() == ipv6_list(lines_of(text@)),
{
    let lines = split_lines(&chars_of(text));
    let ghost ls = lines_view(lines@);
    let inet4 = chars_of("inet ");
    let inet6 = chars_of("inet6 ");
    let mut v4: Vec<String> = Vec::new();
    let mut v6: Vec<String> = Vec::new();
    let mut k: usize = 0;
    while k < lines.len()
        invariant
            k <= lines.len(),
            ls == lines_view(lines@),
            inet4@ == "inet "@,
            inet6@ == "inet6 "@,
            v4.deep_view() == ipv4_list(ls.take(k as int)),
            v6.deep_view() == ipv6_list(ls.take(k as int)),
        decreases lines.len() - k,
    {
        assert(ls.take(k + 1).drop_last() =~= ls.take(k as int));
        assert(ls.take(k + 1).last() == lines@[k as int]@);
        let l = &lines[k];
        let ghost b4 = v4.deep_view();
        let ghost b6 = v6.deep_view();
        if contains_exec(l, &inet4) {
            if let Some(a) = address_in_exec(l, "inet", Class::DottedDigit) {
                v4.push(a);
                assert(v4.deep_view() =~= b4.push(ipv4_in(l@)->0));
            }
        } else if contains_exec(l, &inet6) {
            if let Some(a) = address_in_exec(l, "inet6", Class::HexColon) {
                v6.push(a);
                assert(v6.deep_view() =~= b6.push(ipv6_in(l@)->0));
            }
        }
        k = k + 1;
    }
    assert(ls.take(k as int) =~= ls);
    AddressListing { ipv4: v4, ipv6: v6 }
}

/// The IPv4 configuration that an address `a.b.c.d/n` gives, `n` at most 255.
pub open spec fn ipv4_config_of(a: Seq<char>, gateway: Option<Seq<char>>) -> Option<Ipv4View> {
    let s = skip(a, 0, Class::DottedDigit);
    if s < a.len() && a[s] == '/' {
        match parse_u32_spec(a.subrange(s + 1, a.len() as int)) {
            Some(p) => if p <= 255 {
                Some(
                    Ipv4View {
                        address: a.subrange(0, s),
                        netmask: dotted_quad(mask_value(p as nat)),
                        prefix: p as u8,
                        gateway,
                    },
                )
            } else {
                None
            },
            None => None,
        }
    } else {
        None
    }
}

pub fn ipv4_config_from(address: &String, gateway: Option<String>) -> (r: Option<Ipv4Config>)
    ensures
        match ipv4_config_of(address@, gateway.deep_view()) {
            Some(v) => r is Some && r->0@ == v,
            None => r is None,
        },
{
    let a = chars_of(address.as_str());
    let s = skip_class(&a, 0, Class::DottedDigit);
    if s < a.len() && a[s] == '/' {
        match parse_u32_range(&a, s + 1, a.len()) {
            Some(p) => if p <= 255 {
                let prefix = p as u8;
                Some(
                    Ipv4Config {
                        address: string_of(&a, 0, s),
                        netmask: prefix_to_netmask(prefix),
                        prefix,
                        gateway,
                    },
                )
            } else {
                None
            },
            None => None,
        }
    } else {
        None
    }
}

/// The gateway of a default-route line: the IPv4 address after `default via`.
pub open spec fn gateway_in(output: Seq<char>) -> Option<Seq<char>> {
    field_text(output, "default via"@, Class::DottedDigit)
}

pub fn get_default_gateway(route_output: &str) -> (r: Option<String>)
    ensures
        r.deep_view() == gateway_in(route_output@),
{
    field_text_exec(&chars_of(route_output), "default via", Class::DottedDigit)
}

/// The device of a route listing: the word after the first `dev`.
pub open spec fn route_device_in(output: Seq<char>) -> Option<Seq<char>> {
    field_text(output, "dev"@, Class::NonSpace)
}

pub fn get_default_route_interface(route_output: &str) -> (r: Option<String>)
    ensures
        r.deep_view() == route_device_in(route_output@),
{
    field_text_exec(&chars_of(route_output), "dev", Class::NonSpace)
}

/// The name servers of a resolver file: the IPv4 address after `nameserver`
/// on each line that has one.
pub open spec fn nameservers_of(lines: Seq<Seq<char>>) -> Seq<Seq<char>>
    decreases lines.len(),
{
    if lines.len() == 0 {
        seq![]
    } else {
        let prev = nameservers_of(lines.drop_last());
        match field_text(lines.last(), "nameserver"@, Class::DottedDigit) {
            Some(a) => prev.push(a),
            None => prev,
        }
    }
}

pub fn get_dns_servers(resolver: &str) -> (r: Vec<String>)
    ensures
        r.deep_view() == nameservers_of(lines_of(resolver@)),
{
    let lines = split_lines(&chars_of(resolver));
    let ghost ls = lines_view(lines@);
    let mut out: Vec<String> = Vec::new();
    let mut k: usize = 0;
    while k < lines.len()
        invariant
            k <= lines.len(),
            ls == lines_view(lines@),
            out.deep_view() == nameservers_of(ls.take(k as int)),
        decreases lines.len() - k,
    {
        assert(ls.take(k + 1).drop_last() =~= ls.take(k as int));
        assert(ls.take(k + 1).last() == lines@[k as int]@);
        let ghost before = out.deep_view();
        if let Some(a) = field_text_exec(&lines[k], "nameserver", Class::DottedDigit) {
            out.push(a);
            assert(out.deep_view() =~= before.push(a@));
        }
        k = k + 1;
    }
    assert(ls.take(k as int) =~= ls);
    out
}

/// Adds to `iface` what its address listing, its default-route probe and the
/// resolver's name servers say. The IPv4 configuration comes from the first
/// IPv4 address; a missing probe output leaves the matching fields as they were.
pub fn add_ip_addresses(
    iface: &mut NetInterface,
    listing: Option<&str>,
    route_output: Option<&str>,
    nameservers: &Vec<String>,
)
    ensures
        final(iface).name == old(iface).name,
        final(iface).kind == old(iface).kind,
        final(iface).state == old(iface).state,
        final(iface).mtu == old(iface).mtu,
        final(iface).mac_address == old(iface).mac_address,
        final(iface).owner == old(iface).owner,
        final(iface).config_mode == old(iface).config_mode,
        listing is None ==> final(iface).ipv4_addresses == old(iface).ipv4_addresses,
        listing is None ==> final(iface).ipv6_addresses == old(iface).ipv6_addresses,
        listing is None ==> final(iface).ipv4_config == old(iface).ipv4_config,
        listing matches Some(t) ==> final(iface).ipv4_addresses.deep_view() == old(iface).ipv4_addresses.deep_view() + ipv4_list(lines_of(t@)),
        listing matches Some(t) ==> final(iface).ipv6_addresses.deep_view() == old(iface).ipv6_addresses.deep_view() + ipv6_list(lines_of(t@)),
        listing matches Some(t) ==> {
            let found = ipv4_list(lines_of(t@));
            let gw = match route_output {
                Some(o) => gateway_in(o@),
                None => None,
            };
            if found.len() > 0 && ipv4_config_of(found[0], gw) is Some {
                final(iface).ipv4_config is Some && final(iface).ipv4_config->0@ == ipv4_config_of(
                    found[0],
                    gw,
                )->0
            } else {
                final(iface).ipv4_config == old(iface).ipv4_config
            }
        },
        nameservers@.len() > 0 ==> final(iface).dns_config is Some && final(iface).dns_config->0.nameservers.deep_view() == nameservers.deep_view(),
        nameservers@.len() == 0 ==> final(iface).dns_config == old(iface).dns_config,
{
    if let Some(t) = listing {
        let found = parse_address_listing(t);
        if found.ipv4.len() > 0 {
            let gw = match route_output {
                Some(o) => get_default_gateway(o),
                None => None,
            };
            let cfg = ipv4_config_from(&found.ipv4[0], gw);
            if cfg.is_some() {
                iface.ipv4_config = cfg;
            }
        }
        crate::text::append_strings(&mut iface.ipv4_addresses, &found.ipv4);
        crate::text::append_strings(&mut iface.ipv6_addresses, &found.ipv6);
    }
    if nameservers.len() > 0 {
        iface.dns_config = Some(DnsConfig { nameservers: clone_strings(nameservers) });
    }
}


/// The number of bits set in `n`.
pub open spec fn ones(n: nat) -> nat
    decreases n,
{
    if n == 0 {
        0
    } else {
        n % 2 + ones(n / 2)
    }
}

proof fn lemma_ones_bound(n: nat, k: nat)
    requires
        n < pow2(k),
    ensures
        ones(n) <= k,
    decreases k,
{
    if n > 0 {
        if k == 0 {
            lemma2_to64();
        } else {
            lemma_pow2_unfold(k);
            lemma_ones_bound(n / 2, (k - 1) as nat);
        }
    }
}

fn count_ones(v: u32) -> (r: u32)
    requires
        v <= 255,
    ensures
        r == ones(v as nat),
        r <= 8,
{
    proof {
        lemma2_to64();
        lemma_ones_bound(v as nat, 8);
    }
    let mut n = v;
    let mut c: u32 = 0;
    while n > 0
        invariant
            c + ones(n as nat) == ones(v as nat),
            ones(v as nat) <= 8,
        decreases n,
    {
        c = c + n % 2;
        n = n / 2;
    }
    c
}

/// One part of a dotted-quad netmask: a decimal number up to 255.
pub open spec fn octet_of(p: Seq<char>) -> Option<nat> {
    match parse_u32_spec(p) {
        Some(v) => if v <= 255 {
            Some(v as nat)
        } else {
            None
        },
        None => None,
    }
}

/// The prefix length of a dotted-quad netmask: the number of bits set in its
/// four parts. `None` unless the text is four decimal parts up to 255 split by dots.
pub open spec fn prefix_of_netmask(t: Seq<char>) -> Option<nat> {
    let parts = pieces(t, '.');
    if parts.len() == 4 && octet_of(parts[0]) is Some && octet_of(parts[1]) is Some && octet_of(
        parts[2],
    ) is Some && octet_of(parts[3]) is Some {
        Some(
            ones(octet_of(parts[0])->0) + ones(octet_of(parts[1])->0) + ones(octet_of(parts[2])->0)
                + ones(octet_of(parts[3])->0),
        )
    } else {
        None
    }
}

fn octet_exec(p: &Vec<char>) -> (r: Option<u32>)
    ensures
        match octet_of(p@) {
            Some(v) => r == Some(v as u32) && v <= 255,
            None => r is None,
        },
{
    let v = parse_u32_range(p, 0, p.len());
    assert(p@.subrange(0, p@.len() as int) =~= p@);
    match v {
        Some(x) => if x <= 255 {
            Some(x)
        } else {
            None
        },
        None => None,
    }
}

/// The prefix length that a dotted-quad netmask stands for.
pub fn netmask_to_prefix(netmask: &str) -> (r: Option<u8>)
    ensures
        match prefix_of_netmask(netmask@) {
            Some(v) => r == Some(v as u8) && v <= 32,
            None => r is None,
        },
{
    let parts = split_at_char(&chars_of(netmask), '.');
    if parts.len() != 4 {
        return None;
    }
    let a = octet_exec(&parts[0]);
    let b = octet_exec(&parts[1]);
    let c = octet_exec(&parts[2]);
    let d = octet_exec(&parts[3]);
    match (a, b, c, d) {
        (Some(a), Some(b), Some(c), Some(d)) => {
            let n = count_ones(a) + count_ones(b) + count_ones(c) + count_ones(d);
            Some(n as u8)
        },
        _ => None,
    }
}

/// The name servers of a comma-separated list: each entry trimmed, empty ones dropped.
pub open spec fn dns_entries(parts: Seq<Seq<char>>) -> Seq<Seq<char>>
    decreases parts.len(),
{
    if parts.len() == 0 {
        seq![]
    } else {
        let prev = dns_entries(parts.drop_last());
        let t = trim(parts.last());
        if t.len() > 0 {
            prev.push(t)
        } else {
            prev
        }
    }
}

pub fn parse_dns_list(text: &str) -> (r: Vec<String>)
    ensures
        r.deep_view() == dns_entries(pieces(text@, ',')),
{
    let parts = split_at_char(&chars_of(text), ',');
    let ghost ps = lines_view(parts@);
    let mut out: Vec<String> = Vec::new();
    let mut k: usize = 0;
    while k < parts.len()
        invariant
            k <= parts.len(),
            ps == lines_view(parts@),
            out.deep_view() == dns_entries(ps.take(k as int)),
        decreases parts.len() - k,
    {
        assert(ps.take(k + 1).drop_last() =~= ps.take(k as int));
        assert(ps.take(k + 1).last() == parts@[k as int]@);
        let t = trim_vec(&parts[k]);
        let ghost before = out.deep_view();
        if t.len() > 0 {
            out.push(string_of(&t, 0, t.len()));
            assert(t@.subrange(0, t@.len() as int) =~= t@);
            assert(out.deep_view() =~= before.push(t@));
        }
        k = k + 1;
    }
    assert(ps.take(k as int) =~= ps);
    out
}

} // verus!
