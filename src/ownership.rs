use vstd::prelude::*;

use crate::model::{InterfaceKind, InterfaceOwner, OwnerView, ServiceStatus};
use crate::text::{
    chars_of,
    contains,
    contains_exec,
    eq_exec,
    field_after,
    field_after_exec,
    lines_of,
    lines_view,
    parse_u32_range,
    parse_u32_spec,
    skip,
    skip_class,
    split_lines,
    starts_with,
    starts_with_exec,
    string_of,
    trim,
    trim_vec,
    Class,
};

verus! {

/// The owner that an optional owner shows, as a view.
pub open spec fn owner_view(o: Option<InterfaceOwner>) -> Option<OwnerView> {
    match o {
        Some(x) => Some(x@),
        None => None,
    }
}

/// One running container of the container runtime's listing.
pub struct ContainerEntry {
    pub id: String,
    pub name: String,
    pub image: String,
}

pub struct ContainerView {
    pub id: Seq<char>,
    pub name: Seq<char>,
    pub image: Seq<char>,
}

impl View for ContainerEntry {
    type V = ContainerView;

    open spec fn view(&self) -> ContainerView {
        ContainerView { id: self.id@, name: self.name@, image: self.image@ }
    }
}

/// A line `<id>\t<name>\t<image>[\t...]` of the container listing.
pub open spec fn container_line(l: Seq<char>) -> Option<ContainerView> {
    let t1 = skip(l, 0, Class::Not('\t'));
    let t2 = skip(l, t1 + 1, Class::Not('\t'));
    let t3 = skip(l, t2 + 1, Class::Not('\t'));
    if t1 < l.len() && t2 < l.len() {
        Some(
            ContainerView {
                id: l.subrange(0, t1),
                name: l.subrange(t1 + 1, t2),
                image: l.subrange(t2 + 1, t3),
            },
        )
    } else {
        None
    }
}

pub open spec fn containers_of(lines: Seq<Seq<char>>) -> Seq<ContainerView>
    decreases lines.len(),
{
    if lines.len() == 0 {
        seq![]
    } else {
        let prev = containers_of(lines.drop_last());
        match container_line(lines.last()) {
            Some(c) => prev.push(c),
            None => prev,
        }
    }
}

fn container_of_chars(l: &Vec<char>) -> (r: Option<ContainerEntry>)
    ensures
        match container_line(l@) {
            Some(v) => r is Some && r->0@ == v,
            None => r is None,
        },
{
    let t1 = skip_class(l, 0, Class::Not('\t'));
    if t1 >= l.len() {
        return None;
    }
    let t2 = skip_class(l, t1 + 1, Class::Not('\t'));
    if t2 >= l.len() {
        return None;
    }
    let t3 = skip_class(l, t2 + 1, Class::Not('\t'));
    Some(
        ContainerEntry {
            id: string_of(l, 0, t1),
            name: string_of(l, t1 + 1, t2),
            image: string_of(l, t2 + 1, t3),
        },
    )
}

/// Reads the container listing (one container a line, fields split by tabs);
/// lines with fewer than three fields are skipped.
pub fn parse_container_list(text: &str) -> (r: Vec<ContainerEntry>)
    ensures
        r@.map_values(|c: ContainerEntry| c@) == containers_of(lines_of(text@)),
{
    let lines = split_lines(&chars_of(text));
    let ghost ls = lines_view(lines@);
    let mut out: Vec<ContainerEntry> = Vec::new();
    let mut k: usize = 0;
    while k < lines.len()
        invariant
            k <= lines.len(),
            ls == lines_view(lines@),
            out@.map_values(|c: ContainerEntry| c@) == containers_of(ls.take(k as int)),
        decreases lines.len() - k,
    {
        assert(ls.take(k + 1).drop_last() =~= ls.take(k as int));
        assert(ls.take(k + 1).last() == lines@[k as int]@);
        let ghost before = out@;
        if let Some(c) = container_of_chars(&lines[k]) {
            out.push(c);
            assert(out@.map_values(|c: ContainerEntry| c@) =~= before.map_values(
                |c: ContainerEntry| c@,
            ).push(c@));
        }
        k = k + 1;
    }
    assert(ls.take(k as int) =~= ls);
    out
}

pub open spec fn is_docker_bridge_name(name: Seq<char>) -> bool {
    name == "docker0"@ || starts_with(name, "br-"@)
}

/// The owner that stands for the container runtime's own network, not a container.
pub open spec fn docker_network_view() -> OwnerView {
    OwnerView::DockerContainer { id: "system"@, name: "Docker网桥"@, image: "docker-network"@ }
}

pub open spec fn container_owner_view(c: ContainerView) -> OwnerView {
    OwnerView::DockerContainer { id: c.id, name: c.name, image: c.image }
}

/// The least index below `n` whose evidence holds.
pub open spec fn first_with_evidence(evidence: Seq<bool>, n: int, from: int) -> Option<int>
    decreases n - from,
{
    if from >= n {
        None
    } else if from < evidence.len() && evidence[from] {
        Some(from)
    } else {
        first_with_evidence(evidence, n, from + 1)
    }
}

/// What the container detector finds. It applies to Docker bridges and veth
/// interfaces, and only when the container runtime answers. A bridge name
/// belongs to the runtime's own network; a veth interface belongs to the only
/// running container, or else to the first container with evidence of a network
/// interface (`evidence[i]` for `containers[i]`).
pub open spec fn docker_owner(
    name: Seq<char>,
    kind: InterfaceKind,
    available: bool,
    containers: Option<Seq<ContainerView>>,
    evidence: Seq<bool>,
) -> Option<OwnerView> {
    if !(kind == InterfaceKind::Docker || kind == InterfaceKind::Veth) || !available {
        None
    } else if is_docker_bridge_name(name) {
        Some(docker_network_view())
    } else {
        match containers {
            None => None,
            Some(cs) => if cs.len() == 1 {
                Some(container_owner_view(cs[0]))
            } else {
                match first_with_evidence(evidence, cs.len() as int, 0) {
                    Some(i) => Some(container_owner_view(cs[i])),
                    None => None,
                }
            },
        }
    }
}

pub open spec fn containers_view(cs: Seq<ContainerEntry>) -> Seq<ContainerView> {
    cs.map_values(|c: ContainerEntry| c@)
}

fn owner_of_container(c: &ContainerEntry) -> (r: InterfaceOwner)
    ensures
        r@ == container_owner_view(c@),
{
    InterfaceOwner::DockerContainer { id: c.id.clone(), name: c.name.clone(), image: c.image.clone() }
}

/// Whether the container detector applies to an interface of this kind.
pub fn container_detector_applies(kind: InterfaceKind) -> (r: bool)
    ensures
        r == (kind == InterfaceKind::Docker || kind == InterfaceKind::Veth),
{
    kind == InterfaceKind::Docker || kind == InterfaceKind::Veth
}

pub fn is_docker_bridge(name: &str) -> (r: bool)
    ensures
        r == is_docker_bridge_name(name@),
{
    let n = chars_of(name);
    eq_exec(&n, &chars_of("docker0")) || starts_with_exec(&n, &chars_of("br-"))
}

/// Reads a process id: the text, trimmed, as a decimal `u32`.
pub fn parse_pid(text: &str) -> (r: Option<u32>)
    ensures
        r == parse_u32_spec(trim(text@)),
{
    let t = trim_vec(&chars_of(text));
    assert(t@.subrange(0, t@.len() as int) =~= t@);
    parse_u32_range(&t, 0, t.len())
}

/// Whether a container's namespace link listing shows a network interface of
/// its own (`eth0` or `eth1`); no listing shows none.
pub open spec fn shows_container_link(ns_links: Option<Seq<char>>) -> bool {
    ns_links matches Some(o) && (contains(o, "eth0"@) || contains(o, "eth1"@))
}

/// The unit name `<template>@<interface>.service`.
pub open spec fn unit_name(template: Seq<char>, iface: Seq<char>) -> Seq<char> {
    template + "@"@ + iface + ".service"@
}

/// The service units that may own an interface, in the order they are tried;
/// for a WireGuard interface its `wg-quick` unit comes first.
pub open spec fn service_units(iface: Seq<char>, kind: InterfaceKind) -> Seq<Seq<char>> {
    let common = seq![
        unit_name("wg-quick"@, iface),
        unit_name("openvpn"@, iface),
        unit_name("openvpn-client"@, iface),
        unit_name("netctl"@, iface),
    ];
    if kind == InterfaceKind::WireGuard {
        seq![unit_name("wg-quick"@, iface)] + common
    } else {
        common
    }
}

fn unit_name_exec(template: &str, iface: &str) -> (r: String)
    ensures
        r@ == unit_name(template@, iface@),
{
    let mut s = String::from_str(template);
    s.append("@");
    s.append(iface);
    s.append(".service");
    s
}

/// The status that a unit's status report gives.
pub open spec fn service_status_of(report: Seq<char>) -> ServiceStatus {
    if contains(report, "Active: active"@) {
        ServiceStatus::Active
    } else if contains(report, "Active: inactive"@) {
        ServiceStatus::Inactive
    } else if contains(report, "Active: failed"@) {
        ServiceStatus::Failed
    } else {
        ServiceStatus::Unknown
    }
}

/// The start time in a unit's status report: after the first `since` and
/// whitespace, the text up to the next `;` on that line, trimmed.
pub open spec fn start_time_of(report: Seq<char>) -> Option<Seq<char>> {
    match field_after(report, "since"@, 0, Class::Until(';')) {
        Some((a, b)) => if b < report.len() && report[b] == ';' {
            Some(trim(report.subrange(a, b)))
        } else {
            None
        },
        None => None,
    }
}

/// The owner that a unit's status query gives: any answer is a match.
pub open spec fn service_owner(unit: Seq<char>, report: Option<Seq<char>>) -> Option<OwnerView> {
    match report {
        Some(t) => Some(
            OwnerView::SystemdService {
                name: unit,
                status: service_status_of(t),
                start_time: start_time_of(t),
            },
        ),
        None => None,
    }
}

/// The first index below `n` whose report is there.
pub open spec fn first_answered(reports: Seq<Option<Seq<char>>>, n: int, from: int) -> Option<int>
    decreases n - from,
{
    if from >= n {
        None
    } else if from < reports.len() && reports[from] is Some {
        Some(from)
    } else {
        first_answered(reports, n, from + 1)
    }
}

/// What the service-manager detector finds: the owner of the first unit of
/// `service_units` whose status query answered (`reports[i]` for unit `i`).
pub open spec fn systemd_owner(
    iface: Seq<char>,
    kind: InterfaceKind,
    reports: Seq<Option<Seq<char>>>,
) -> Option<OwnerView> {
    let units = service_units(iface, kind);
    match first_answered(reports, units.len() as int, 0) {
        Some(i) => service_owner(units[i], reports[i]),
        None => None,
    }
}

/// The path fragment of the tun/tap device node.
pub open spec fn is_tun_link(target: Seq<char>) -> bool {
    contains(target, "/dev/net/tun"@)
}

/// The name a process goes by: its `comm`, trimmed, or `pid-<pid>` without one.
pub open spec fn process_name_of(pid: u32, comm: Option<Seq<char>>) -> Seq<char> {
    match comm {
        Some(c) => trim(c),
        None => "pid-"@ + crate::text::decimal(pid as nat),
    }
}

/// A command line with its NUL separators as spaces.
pub open spec fn nul_to_space(s: Seq<char>) -> Seq<char> {
    s.map_values(|c: char| if c == '\0' { ' ' } else { c })
}

/// The command line of a process: its `cmdline`, NULs as spaces, trimmed; empty without one.
pub open spec fn cmdline_of(raw: Option<Seq<char>>) -> Seq<char> {
    match raw {
        Some(c) => trim(nul_to_space(c)),
        None => Seq::empty(),
    }
}

/// What the namespace probe says of the interface: that it is listed there;
/// when the probe failed, the process is trusted to own it.
pub open spec fn namespace_has(ns_output: Option<Seq<char>>, iface: Seq<char>) -> bool {
    match ns_output {
        Some(o) => contains(o, iface),
        None => true,
    }
}

/// What the process detector finds for one process: the process, when one of
/// its descriptors points at the tun/tap device node and its namespace holds
/// the interface.
pub open spec fn process_owner_of(
    pid: u32,
    iface: Seq<char>,
    links: Seq<Seq<char>>,
    ns_output: Option<Seq<char>>,
    comm: Option<Seq<char>>,
    cmdline: Option<Seq<char>>,
) -> Option<OwnerView> {
    if (exists|i: int| 0 <= i < links.len() && is_tun_link(#[trigger] links[i])) && namespace_has(
        ns_output,
        iface,
    ) {
        Some(
            OwnerView::Process {
                pid,
                name: process_name_of(pid, comm),
                cmdline: cmdline_of(cmdline),
            },
        )
    } else {
        None
    }
}

/// The value after `key` and whitespace, to the end of its line, trimmed.
pub open spec fn nm_field(output: Seq<char>, key: Seq<char>) -> Option<Seq<char>> {
    match field_after(output, key, 0, Class::Not('\n')) {
        Some((a, b)) => Some(trim(output.subrange(a, b))),
        None => None,
    }
}

/// What the connection-manager detector finds: a managed connection, with its
/// name and UUID.
pub open spec fn network_manager_owner(available: bool, output: Option<Seq<char>>) -> Option<
    OwnerView,
> {
    match output {
        Some(o) => if available && contains(o, "GENERAL.CONNECTION"@) && nm_field(
            o,
            "GENERAL.CONNECTION:"@,
        ) is Some && nm_field(o, "GENERAL.CON-UUID:"@) is Some {
            Some(
                OwnerView::NetworkManager {
                    connection: nm_field(o, "GENERAL.CONNECTION:"@)->0,
                    uuid: nm_field(o, "GENERAL.CON-UUID:"@)->0,
                },
            )
        } else {
            None
        },
        None => None,
    }
}

/// The kernel module that an interface of this kind comes from, if any.
pub open spec fn module_for(kind: InterfaceKind) -> Option<Seq<char>> {
    match kind {
        InterfaceKind::Bridge => Some("bridge"@),
        InterfaceKind::Vlan => Some("8021q"@),
        InterfaceKind::WireGuard => Some("wireguard"@),
        _ => None,
    }
}

/// What the kernel-module detector finds: the kind's module, when the loaded
/// module list mentions it.
pub open spec fn kernel_owner(kind: InterfaceKind, modules: Option<Seq<char>>) -> Option<OwnerView> {
    match (module_for(kind), modules) {
        (Some(m), Some(o)) => if contains(o, m) {
            Some(OwnerView::Kernel { module: m })
        } else {
            None
        },
        _ => None,
    }
}

pub open spec fn opt_view(o: Option<&str>) -> Option<Seq<char>> {
    match o {
        Some(t) => Some(t@),
        None => None,
    }
}

fn trimmed_string(t: &str) -> (r: String)
    ensures
        r@ == trim(t@),
{
    let v = trim_vec(&chars_of(t));
    let r = string_of(&v, 0, v.len());
    assert(v@.subrange(0, v@.len() as int) =~= v@);
    r
}

fn nm_field_exec(o: &Vec<char>, key: &str) -> (r: Option<String>)
    ensures
        r.deep_view() == nm_field(o@, key@),
{
    match field_after_exec(o, &chars_of(key), 0, Class::Not('\n')) {
        Some((a, b)) => {
            let v = trim_vec(&crate::text::slice_vec(o, a, b));
            assert(v@.subrange(0, v@.len() as int) =~= v@);
            Some(string_of(&v, 0, v.len()))
        },
        None => None,
    }
}

pub struct OwnerDetector;

impl OwnerDetector {
    /// The container detector, from the answers of the container runtime.
    pub fn check_docker_container(
        iface_name: &str,
        kind: InterfaceKind,
        docker_available: bool,
        containers: Option<&Vec<ContainerEntry>>,
        evidence: &Vec<bool>,
    ) -> (r: Option<InterfaceOwner>)
        ensures
            owner_view(r) == docker_owner(
                iface_name@,
                kind,
                docker_available,
                match containers {
                    Some(cs) => Some(containers_view(cs@)),
                    None => None,
                },
                evidence@,
            ),
    {
        if !container_detector_applies(kind) || !docker_available {
            return None;
        }
        if is_docker_bridge(iface_name) {
            return Some(
                InterfaceOwner::DockerContainer {
                    id: String::from_str("system"),
                    name: String::from_str("Docker网桥"),
                    image: String::from_str("docker-network"),
                },
            );
        }
        match containers {
            None => None,
            Some(cs) => {
                if cs.len() == 1 {
                    return Some(owner_of_container(&cs[0]));
                }
                let ghost n = cs@.len() as int;
                let mut i: usize = 0;
                while i < cs.len()
                    invariant
                        i <= cs.len(),
                        n == cs@.len(),
                        n != 1,
                        containers == Some(cs),
                        kind == InterfaceKind::Docker || kind == InterfaceKind::Veth,
                        docker_available,
                        !is_docker_bridge_name(iface_name@),
                        first_with_evidence(evidence@, n, i as int) == first_with_evidence(
                            evidence@,
                            n,
                            0,
                        ),
                    decreases cs.len() - i,
                {
                    if i < evidence.len() && evidence[i] {
                        return Some(owner_of_container(&cs[i]));
                    }
                    i = i + 1;
                }
                None
            },
        }
    }

    /// Whether a container holds a network interface, from the link listing of
    /// its network namespace (`None` when that probe failed).
    pub fn container_has_veth(ns_links: Option<&str>) -> (r: bool)
        ensures
            r == shows_container_link(
                match ns_links {
                    Some(t) => Some(t@),
                    None => None,
                },
            ),
    {
        match ns_links {
            Some(t) => {
                let o = chars_of(t);
                contains_exec(&o, &chars_of("eth0")) || contains_exec(&o, &chars_of("eth1"))
            },
            None => false,
        }
    }

    /// The units to query, in order.
    pub fn service_candidates(iface_name: &str, kind: InterfaceKind) -> (r: Vec<String>)
        ensures
            r.deep_view() == service_units(iface_name@, kind),
    {
        let mut r: Vec<String> = Vec::new();
        if kind == InterfaceKind::WireGuard {
            r.push(unit_name_exec("wg-quick", iface_name));
        }
        r.push(unit_name_exec("wg-quick", iface_name));
        r.push(unit_name_exec("openvpn", iface_name));
        r.push(unit_name_exec("openvpn-client", iface_name));
        r.push(unit_name_exec("netctl", iface_name));
        assert(r.deep_view() =~= service_units(iface_name@, kind));
        r
    }

    /// The start time in a unit's status report.
    pub fn extract_start_time(report: &str) -> (r: Option<String>)
        ensures
            r.deep_view() == start_time_of(report@),
    {
        let o = chars_of(report);
        match field_after_exec(&o, &chars_of("since"), 0, Class::Until(';')) {
            Some((a, b)) => if b < o.len() && o[b] == ';' {
                let v = trim_vec(&crate::text::slice_vec(&o, a, b));
                assert(v@.subrange(0, v@.len() as int) =~= v@);
                Some(string_of(&v, 0, v.len()))
            } else {
                None
            },
            None => None,
        }
    }

    /// The owner that the status query of `unit` gives (`None` when the query failed).
    pub fn check_service(unit: &str, report: Option<&str>) -> (r: Option<InterfaceOwner>)
        ensures
            owner_view(r) == service_owner(unit@, opt_view(report)),
    {
        match report {
            Some(t) => {
                let o = chars_of(t);
                let status = if contains_exec(&o, &chars_of("Active: active")) {
                    ServiceStatus::Active
                } else if contains_exec(&o, &chars_of("Active: inactive")) {
                    ServiceStatus::Inactive
                } else if contains_exec(&o, &chars_of("Active: failed")) {
                    ServiceStatus::Failed
                } else {
                    ServiceStatus::Unknown
                };
                Some(
                    InterfaceOwner::SystemdService {
                        name: String::from_str(unit),
                        status,
                        start_time: Self::extract_start_time(t),
                    },
                )
            },
            None => None,
        }
    }

    /// The service-manager detector, from the status reports of the units of
    /// `service_candidates`, one for each, in the same order.
    pub fn check_systemd_service(
        iface_name: &str,
        kind: InterfaceKind,
        reports: &Vec<Option<String>>,
    ) -> (r: Option<InterfaceOwner>)
        ensures
            owner_view(r) == systemd_owner(iface_name@, kind, reports.deep_view()),
    {
        let units = Self::service_candidates(iface_name, kind);
        let ghost n = units@.len() as int;
        let mut i: usize = 0;
        while i < units.len()
            invariant
                i <= units.len(),
                n == units@.len(),
                units.deep_view() == service_units(iface_name@, kind),
                first_answered(reports.deep_view(), n, i as int) == first_answered(
                    reports.deep_view(),
                    n,
                    0,
                ),
            decreases units.len() - i,
        {
            if i < reports.len() {
                if let Some(t) = &reports[i] {
                    assert(reports.deep_view()[i as int] == Some(t@));
                    assert(units.deep_view()[i as int] == units@[i as int]@);
                    return Self::check_service(units[i].as_str(), Some(t.as_str()));
                }
            }
            i = i + 1;
        }
        None
    }

    /// Whether the namespace of a process holds the interface (`None` when the
    /// namespace probe failed: then it is taken to hold it).
    pub fn process_owns_interface(ns_output: Option<&str>, iface_name: &str) -> (r: bool)
        ensures
            r == namespace_has(opt_view(ns_output), iface_name@),
    {
        match ns_output {
            Some(o) => contains_exec(&chars_of(o), &chars_of(iface_name)),
            None => true,
        }
    }

    /// Whether any of the descriptor targets is the tun/tap device node.
    pub fn holds_tun_device(links: &Vec<String>) -> (r: bool)
        ensures
            r == exists|i: int| 0 <= i < links@.len() && is_tun_link(#[trigger] links.deep_view()[i]),
    {
        let dev = chars_of("/dev/net/tun");
        let mut i: usize = 0;
        while i < links.len()
            invariant
                i <= links.len(),
                dev@ == "/dev/net/tun"@,
                forall|j: int| 0 <= j < i ==> !is_tun_link(#[trigger] links.deep_view()[j]),
            decreases links.len() - i,
        {
            if contains_exec(&chars_of(links[i].as_str()), &dev) {
                assert(is_tun_link(links.deep_view()[i as int]));
                return true;
            }
            i = i + 1;
        }
        false
    }

    /// The name of a process from its `comm` file.
    pub fn read_process_name(pid: u32, comm: Option<&str>) -> (r: String)
        ensures
            r@ == process_name_of(pid, opt_view(comm)),
    {
        match comm {
            Some(c) => trimmed_string(c),
            None => {
                let mut s = String::from_str("pid-");
                crate::text::push_decimal(&mut s, pid);
                s
            },
        }
    }

    /// The command line of a process from its `cmdline` file.
    pub fn read_process_cmdline(raw: Option<&str>) -> (r: String)
        ensures
            r@ == cmdline_of(opt_view(raw)),
    {
        match raw {
            Some(c) => {
                let v = chars_of(c);
                let mut w: Vec<char> = Vec::new();
                let mut i: usize = 0;
                while i < v.len()
                    invariant
                        i <= v.len(),
                        w@ == nul_to_space(v@.take(i as int)),
                    decreases v.len() - i,
                {
                    let ch = v[i];
                    w.push(if ch == '\0' { ' ' } else { ch });
                    i = i + 1;
                    assert(w@ =~= nul_to_space(v@.take(i as int)));
                }
                assert(v@.take(i as int) =~= v@);
                let t = trim_vec(&w);
                assert(t@.subrange(0, t@.len() as int) =~= t@);
                string_of(&t, 0, t.len())
            },
            None => String::new(),
        }
    }

    /// The process detector for one process: `links` are the targets of its
    /// descriptors, `ns_output` the link listing of its namespace for the
    /// interface, `comm` and `cmdline` its files.
    pub fn check_process_tun(
        pid: u32,
        iface_name: &str,
        links: &Vec<String>,
        ns_output: Option<&str>,
        comm: Option<&str>,
        cmdline: Option<&str>,
    ) -> (r: Option<InterfaceOwner>)
        ensures
            owner_view(r) == process_owner_of(
                pid,
                iface_name@,
                links.deep_view(),
                opt_view(ns_output),
                opt_view(comm),
                opt_view(cmdline),
            ),
    {
        if Self::holds_tun_device(links) && Self::process_owns_interface(ns_output, iface_name) {
            Some(
                InterfaceOwner::Process {
                    pid,
                    name: Self::read_process_name(pid, comm),
                    cmdline: Self::read_process_cmdline(cmdline),
                },
            )
        } else {
            None
        }
    }

    /// The connection-manager detector, from whether the tool answers and its
    /// report on the device.
    pub fn check_network_manager(available: bool, output: Option<&str>) -> (r: Option<
        InterfaceOwner,
    >)
        ensures
            owner_view(r) == network_manager_owner(available, opt_view(output)),
    {
        if !available {
            return None;
        }
        match output {
            Some(t) => {
                let o = chars_of(t);
                if !contains_exec(&o, &chars_of("GENERAL.CONNECTION")) {
                    return None;
                }
                let connection = nm_field_exec(&o, "GENERAL.CONNECTION:");
                let uuid = nm_field_exec(&o, "GENERAL.CON-UUID:");
                match (connection, uuid) {
                    (Some(c), Some(u)) => Some(InterfaceOwner::NetworkManager { connection: c, uuid: u }),
                    _ => None,
                }
            },
            None => None,
        }
    }

    /// The kernel module that an interface of this kind comes from.
    pub fn module_for_kind(kind: InterfaceKind) -> (r: Option<&'static str>)
        ensures
            opt_view(r) == module_for(kind),
    {
        match kind {
            InterfaceKind::Bridge => Some("bridge"),
            InterfaceKind::Vlan => Some("8021q"),
            InterfaceKind::WireGuard => Some("wireguard"),
            _ => None,
        }
    }

    /// The kernel-module detector, from the loaded-module list.
    pub fn check_kernel_module(kind: InterfaceKind, modules: Option<&str>) -> (r: Option<
        InterfaceOwner,
    >)
        ensures
            owner_view(r) == kernel_owner(kind, opt_view(modules)),
    {
        match (Self::module_for_kind(kind), modules) {
            (Some(m), Some(o)) => if contains_exec(&chars_of(o), &chars_of(m)) {
                Some(InterfaceOwner::Kernel { module: String::from_str(m) })
            } else {
                None
            },
            _ => None,
        }
    }
}


/// The five detectors of the ownership chain.
#[derive(Clone, Copy, Debug, PartialEq, Eq, Structural)]
pub enum Detector {
    Container,
    Service,
    ProcessFd,
    NetworkManager,
    KernelModule,
}

/// The order in which the detectors are asked. It is a total order, not a
/// ranking of matches: the first detector that finds an owner decides.
pub open spec fn detector_order() -> Seq<Detector> {
    seq![
        Detector::Container,
        Detector::Service,
        Detector::ProcessFd,
        Detector::NetworkManager,
        Detector::KernelModule,
    ]
}

pub const DETECTOR_COUNT: usize = 5;

/// The detector at position `i` of the order.
pub fn detector_at(i: usize) -> (r: Detector)
    requires
        i < DETECTOR_COUNT,
    ensures
        r == detector_order()[i as int],
{
    if i == 0 {
        Detector::Container
    } else if i == 1 {
        Detector::Service
    } else if i == 2 {
        Detector::ProcessFd
    } else if i == 3 {
        Detector::NetworkManager
    } else {
        Detector::KernelModule
    }
}

/// The owner that a run of detector answers resolves to: the first one found.
pub open spec fn first_found(found: Seq<Option<OwnerView>>) -> Option<OwnerView>
    decreases found.len(),
{
    if found.len() == 0 {
        None
    } else if found[0] is Some {
        found[0]
    } else {
        first_found(found.drop_first())
    }
}

/// The resolution of one interface's owner, asking the detectors in order and
/// stopping at the first answer.
pub struct OwnerResolution {
    asked: usize,
    owner: Option<InterfaceOwner>,
    answers: Ghost<Seq<Option<OwnerView>>>,
}

impl OwnerResolution {
    /// The answers recorded so far, one for each detector asked, in order.
    pub closed spec fn answers(&self) -> Seq<Option<OwnerView>> {
        self.answers@
    }

    pub closed spec fn wf(&self) -> bool {
        &&& self.asked == self.answers@.len()
        &&& self.asked <= DETECTOR_COUNT
        &&& owner_view(self.owner) == first_found(self.answers@)
        &&& (self.owner is Some ==> self.answers@.last() is Some)
    }

    /// Whether the resolution is over: an owner was found or every detector was asked.
    pub open spec fn done(&self) -> bool {
        first_found(self.answers()) is Some || self.answers().len() == DETECTOR_COUNT
    }

    pub fn new() -> (r: Self)
        ensures
            r.wf(),
            r.answers() == Seq::<Option<OwnerView>>::empty(),
    {
        OwnerResolution { asked: 0, owner: None, answers: Ghost(Seq::empty()) }
    }

    /// The detector to run next, or `None` once the resolution is over.
    pub fn next_detector(&self) -> (r: Option<Detector>)
        requires
            self.wf(),
        ensures
            self.done() ==> r is None,
            !self.done() ==> r == Some(detector_order()[self.answers().len() as int]),
    {
        if self.owner.is_some() || self.asked >= DETECTOR_COUNT {
            None
        } else {
            Some(detector_at(self.asked))
        }
    }

    /// Records what the detector that `next_detector` named found.
    pub fn record(&mut self, found: Option<InterfaceOwner>)
        requires
            old(self).wf(),
            !old(self).done(),
        ensures
            final(self).wf(),
            final(self).answers() == old(self).answers().push(owner_view(found)),
            first_found(final(self).answers()) == owner_view(found),
    {
        let ghost before = self.answers@;
        proof {
            lemma_first_found_push(before, owner_view(found));
        }
        self.asked = self.asked + 1;
        self.answers = Ghost(before.push(owner_view(found)));
        self.owner = found;
    }

    /// The resolved owner.
    pub fn owner(self) -> (r: Option<InterfaceOwner>)
        requires
            self.wf(),
        ensures
            owner_view(r) == first_found(self.answers()),
    {
        self.owner
    }
}

/// Adding an answer after none was found makes the resolution that answer.
pub proof fn lemma_first_found_push(found: Seq<Option<OwnerView>>, next: Option<OwnerView>)
    requires
        first_found(found) is None,
    ensures
        first_found(found.push(next)) == next,
    decreases found.len(),
{
    if found.len() > 0 {
        assert(found[0] is None);
        assert(first_found(found.drop_first()) is None);
        assert(found.push(next)[0] == found[0]);
        assert(found.push(next).drop_first() =~= found.drop_first().push(next));
        lemma_first_found_push(found.drop_first(), next);
        assert(first_found(found.push(next)) == first_found(found.push(next).drop_first()));
    } else {
        assert(found.push(next).drop_first() =~= Seq::<Option<OwnerView>>::empty());
        assert(found.push(next)[0] == next);
        assert(first_found(Seq::<Option<OwnerView>>::empty()) is None);
    }
}

/// The resolution is the answer of the earliest detector that found an owner.
pub proof fn lemma_earliest_answer_wins(found: Seq<Option<OwnerView>>, i: int)
    requires
        0 <= i < found.len(),
        found[i] is Some,
        forall|j: int| 0 <= j < i ==> found[j] is None,
    ensures
        first_found(found) == found[i],
    decreases i,
{
    if i > 0 {
        lemma_earliest_answer_wins(found.drop_first(), i - 1);
    }
}

/// An interface that both the container detector and the kernel-module
/// detector would claim resolves to the container detector's owner: the order
/// decides, not the quality of the match.
pub proof fn lemma_container_outranks_kernel_module(found: Seq<Option<OwnerView>>)
    requires
        found.len() == DETECTOR_COUNT,
        found[0] is Some,
        found[4] is Some,
    ensures
        first_found(found) == found[0],
{
}

} // verus!
