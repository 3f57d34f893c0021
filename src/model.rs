use vstd::prelude::*;

use crate::text::{decimal, push_decimal};

verus! {

/// The kind of a network interface, fixed when the interface is read.
#[derive(Clone, Copy, Debug, PartialEq, Eq, Structural)]
pub enum InterfaceKind {
    Physical,
    Loopback,
    Tun,
    Tap,
    WireGuard,
    Bridge,
    Veth,
    Vlan,
    /// A Docker bridge (`docker0` or `br-*`).
    Docker,
    Unknown,
}

impl InterfaceKind {
    /// Every kind but the physical and the loopback one is virtual.
    pub fn is_virtual(&self) -> (r: bool)
        ensures
            r == !(*self == InterfaceKind::Physical || *self == InterfaceKind::Loopback),
    {
        !(*self == InterfaceKind::Physical || *self == InterfaceKind::Loopback)
    }

    pub fn display_name(&self) -> (r: &str)
        ensures
            r@ == match *self {
                InterfaceKind::Physical => "物理网卡"@,
                InterfaceKind::Loopback => "回环接口"@,
                InterfaceKind::Tun => "TUN设备"@,
                InterfaceKind::Tap => "TAP设备"@,
                InterfaceKind::WireGuard => "WireGuard"@,
                InterfaceKind::Bridge => "网桥"@,
                InterfaceKind::Veth => "虚拟以太网"@,
                InterfaceKind::Vlan => "VLAN"@,
                InterfaceKind::Docker => "Docker网桥"@,
                InterfaceKind::Unknown => "未知"@,
            },
    {
        match self {
            InterfaceKind::Physical => "物理网卡",
            InterfaceKind::Loopback => "回环接口",
            InterfaceKind::Tun => "TUN设备",
            InterfaceKind::Tap => "TAP设备",
            InterfaceKind::WireGuard => "WireGuard",
            InterfaceKind::Bridge => "网桥",
            InterfaceKind::Veth => "虚拟以太网",
            InterfaceKind::Vlan => "VLAN",
            InterfaceKind::Docker => "Docker网桥",
            InterfaceKind::Unknown => "未知",
        }
    }

    pub fn icon(&self) -> (r: &str)
        ensures
            r@ == match *self {
                InterfaceKind::Physical => "🔌"@,
                InterfaceKind::Loopback => "🔄"@,
                InterfaceKind::Tun | InterfaceKind::Tap => "🔐"@,
                InterfaceKind::WireGuard => "🔒"@,
                InterfaceKind::Bridge => "🌉"@,
                InterfaceKind::Veth => "🔗"@,
                InterfaceKind::Vlan => "🏷️"@,
                InterfaceKind::Docker => "🐳"@,
                InterfaceKind::Unknown => "❓"@,
            },
    {
        match self {
            InterfaceKind::Physical => "🔌",
            InterfaceKind::Loopback => "🔄",
            InterfaceKind::Tun | InterfaceKind::Tap => "🔐",
            InterfaceKind::WireGuard => "🔒",
            InterfaceKind::Bridge => "🌉",
            InterfaceKind::Veth => "🔗",
            InterfaceKind::Vlan => "🏷️",
            InterfaceKind::Docker => "🐳",
            InterfaceKind::Unknown => "❓",
        }
    }
}

#[derive(Clone, Copy, Debug, PartialEq, Eq, Structural)]
pub enum InterfaceState {
    Up,
    Down,
    Unknown,
}

impl InterfaceState {
    pub fn display_name(&self) -> (r: &str)
        ensures
            r@ == match *self {
                InterfaceState::Up => "UP"@,
                InterfaceState::Down => "DOWN"@,
                InterfaceState::Unknown => "UNKNOWN"@,
            },
    {
        match self {
            InterfaceState::Up => "UP",
            InterfaceState::Down => "DOWN",
            InterfaceState::Unknown => "UNKNOWN",
        }
    }
}

/// The state of a service unit as its status report gives it.
#[derive(Clone, Copy, Debug, PartialEq, Eq, Structural)]
pub enum ServiceStatus {
    Active,
    Inactive,
    Failed,
    Unknown,
}

/// The subsystem that created an interface.
#[derive(Clone, Debug)]
pub enum InterfaceOwner {
    SystemdService { name: String, status: ServiceStatus, start_time: Option<String> },
    DockerContainer { id: String, name: String, image: String },
    Process { pid: u32, name: String, cmdline: String },
    NetworkManager { connection: String, uuid: String },
    Kernel { module: String },
    Unknown,
}

/// What an owner says, with its texts as character sequences.
pub enum OwnerView {
    SystemdService { name: Seq<char>, status: ServiceStatus, start_time: Option<Seq<char>> },
    DockerContainer { id: Seq<char>, name: Seq<char>, image: Seq<char> },
    Process { pid: u32, name: Seq<char>, cmdline: Seq<char> },
    NetworkManager { connection: Seq<char>, uuid: Seq<char> },
    Kernel { module: Seq<char> },
    Unknown,
}

impl View for InterfaceOwner {
    type V = OwnerView;

    open spec fn view(&self) -> OwnerView {
        match self {
            InterfaceOwner::SystemdService { name, status, start_time } => OwnerView::SystemdService {
                name: name@,
                status: *status,
                start_time: start_time.deep_view(),
            },
            InterfaceOwner::DockerContainer { id, name, image } => OwnerView::DockerContainer {
                id: id@,
                name: name@,
                image: image@,
            },
            InterfaceOwner::Process { pid, name, cmdline } => OwnerView::Process {
                pid: *pid,
                name: name@,
                cmdline: cmdline@,
            },
            InterfaceOwner::NetworkManager { connection, uuid } => OwnerView::NetworkManager {
                connection: connection@,
                uuid: uuid@,
            },
            InterfaceOwner::Kernel { module } => OwnerView::Kernel { module: module@ },
            InterfaceOwner::Unknown => OwnerView::Unknown,
        }
    }
}

/// The label under which an owner is shown.
pub open spec fn owner_label(o: OwnerView) -> Seq<char> {
    match o {
        OwnerView::SystemdService { name, .. } => "systemd: "@ + name,
        OwnerView::DockerContainer { name, .. } => "Docker: "@ + name,
        OwnerView::Process { pid, name, .. } => "进程: "@ + name + " (PID: "@ + decimal(
            pid as nat,
        ) + ")"@,
        OwnerView::NetworkManager { connection, .. } => "NetworkManager: "@ + connection,
        OwnerView::Kernel { module } => "内核模块: "@ + module,
        OwnerView::Unknown => "未知"@,
    }
}

impl InterfaceOwner {
    pub fn display_name(&self) -> (r: String)
        ensures
            r@ == owner_label(self@),
    {
        match self {
            InterfaceOwner::SystemdService { name, .. } => {
                let mut s = String::from_str("systemd: ");
                s.append(name.as_str());
                s
            },
            InterfaceOwner::DockerContainer { name, .. } => {
                let mut s = String::from_str("Docker: ");
                s.append(name.as_str());
                s
            },
            InterfaceOwner::Process { name, pid, .. } => {
                let mut s = String::from_str("进程: ");
                s.append(name.as_str());
                s.append(" (PID: ");
                push_decimal(&mut s, *pid);
                s.append(")");
                s
            },
            InterfaceOwner::NetworkManager { connection, .. } => {
                let mut s = String::from_str("NetworkManager: ");
                s.append(connection.as_str());
                s
            },
            InterfaceOwner::Kernel { module } => {
                let mut s = String::from_str("内核模块: ");
                s.append(module.as_str());
                s
            },
            InterfaceOwner::Unknown => String::from_str("未知"),
        }
    }

    pub fn icon(&self) -> (r: &str)
        ensures
            r@ == match self@ {
                OwnerView::SystemdService { .. } => "📦"@,
                OwnerView::DockerContainer { .. } => "🐳"@,
                OwnerView::Process { .. } => "⚙️"@,
                OwnerView::NetworkManager { .. } => "🔧"@,
                OwnerView::Kernel { .. } => "🐧"@,
                OwnerView::Unknown => "❓"@,
            },
    {
        match self {
            InterfaceOwner::SystemdService { .. } => "📦",
            InterfaceOwner::DockerContainer { .. } => "🐳",
            InterfaceOwner::Process { .. } => "⚙️",
            InterfaceOwner::NetworkManager { .. } => "🔧",
            InterfaceOwner::Kernel { .. } => "🐧",
            InterfaceOwner::Unknown => "❓",
        }
    }
}

#[derive(Clone, Copy, Debug, PartialEq, Eq, Structural)]
pub enum IpConfigMode {
    Static,
    Dhcp,
    Unconfigured,
}

/// The IPv4 configuration read from an interface's first IPv4 address.
#[derive(Clone, Debug)]
pub struct Ipv4Config {
    pub address: String,
    pub netmask: String,
    pub prefix: u8,
    pub gateway: Option<String>,
}

pub struct Ipv4View {
    pub address: Seq<char>,
    pub netmask: Seq<char>,
    pub prefix: u8,
    pub gateway: Option<Seq<char>>,
}

impl View for Ipv4Config {
    type V = Ipv4View;

    open spec fn view(&self) -> Ipv4View {
        Ipv4View {
            address: self.address@,
            netmask: self.netmask@,
            prefix: self.prefix,
            gateway: self.gateway.deep_view(),
        }
    }
}

/// The resolver's name servers, in the order the resolver lists them.
#[derive(Clone, Debug)]
pub struct DnsConfig {
    pub nameservers: Vec<String>,
}

/// One network interface as the last inventory saw it.
#[derive(Clone, Debug)]
pub struct NetInterface {
    pub name: String,
    pub kind: InterfaceKind,
    pub state: InterfaceState,
    pub mac_address: Option<String>,
    pub mtu: u32,
    pub ipv4_addresses: Vec<String>,
    pub ipv6_addresses: Vec<String>,
    pub owner: Option<InterfaceOwner>,
    pub config_mode: IpConfigMode,
    pub ipv4_config: Option<Ipv4Config>,
    pub dns_config: Option<DnsConfig>,
}

impl NetInterface {
    /// A fresh record: state unknown, MTU 1500, no addresses, owner or configuration.
    pub fn new(name: String, kind: InterfaceKind) -> (r: Self)
        ensures
            r.name@ == name@,
            r.kind == kind,
            r.state == InterfaceState::Unknown,
            r.mac_address is None,
            r.mtu == 1500,
            r.ipv4_addresses@.len() == 0,
            r.ipv6_addresses@.len() == 0,
            r.owner is None,
            r.config_mode == IpConfigMode::Unconfigured,
            r.ipv4_config is None,
            r.dns_config is None,
    {
        NetInterface {
            name,
            kind,
            state: InterfaceState::Unknown,
            mac_address: None,
            mtu: 1500,
            ipv4_addresses: Vec::new(),
            ipv6_addresses: Vec::new(),
            owner: None,
            config_mode: IpConfigMode::Unconfigured,
            ipv4_config: None,
            dns_config: None,
        }
    }

    /// The first IPv4 address, if any.
    pub fn primary_ipv4(&self) -> (r: Option<&String>)
        ensures
            self.ipv4_addresses@.len() == 0 ==> r is None,
            self.ipv4_addresses@.len() > 0 ==> r == Some(&self.ipv4_addresses@[0]),
    {
        if self.ipv4_addresses.len() == 0 {
            None
        } else {
            Some(&self.ipv4_addresses[0])
        }
    }

    pub fn is_deletable(&self) -> (r: bool)
        ensures
            r == (self.kind != InterfaceKind::Physical && self.kind != InterfaceKind::Loopback),
    {
        self.kind.is_virtual() && self.kind != InterfaceKind::Loopback
    }

    pub fn is_configurable(&self) -> (r: bool)
        ensures
            r == (self.kind == InterfaceKind::Physical),
    {
        self.kind == InterfaceKind::Physical
    }
}

/// How an interface is torn down.
#[derive(Clone, Copy, Debug, PartialEq, Eq, Structural)]
pub enum RemovalStrategy {
    /// Delete the interface only; its owner may create it again.
    InterfaceOnly,
    /// Stop the owning service, then delete.
    StopService,
    /// Stop and disable the owning service, then delete.
    StopAndDisableService,
    /// Stop the owning container, then delete.
    StopContainer,
    /// Terminate the owning process, then delete.
    KillProcess,
}

impl RemovalStrategy {
    pub fn display_name(&self) -> (r: &str)
        ensures
            r@ == match *self {
                RemovalStrategy::InterfaceOnly => "仅删除接口（临时）"@,
                RemovalStrategy::StopService => "停止服务并删除（推荐）"@,
                RemovalStrategy::StopAndDisableService => "停止并禁用服务（永久）"@,
                RemovalStrategy::StopContainer => "停止容器"@,
                RemovalStrategy::KillProcess => "终止进程"@,
            },
    {
        match self {
            RemovalStrategy::InterfaceOnly => "仅删除接口（临时）",
            RemovalStrategy::StopService => "停止服务并删除（推荐）",
            RemovalStrategy::StopAndDisableService => "停止并禁用服务（永久）",
            RemovalStrategy::StopContainer => "停止容器",
            RemovalStrategy::KillProcess => "终止进程",
        }
    }

    pub fn description(&self) -> (r: &str)
        ensures
            r@ == match *self {
                RemovalStrategy::InterfaceOnly => "仅删除接口，服务仍在运行，接口可能立即重建"@,
                RemovalStrategy::StopService => "停止服务并删除接口，服务仍会开机自启"@,
                RemovalStrategy::StopAndDisableService => "停止服务、禁用开机自启并删除接口"@,
                RemovalStrategy::StopContainer => "停止Docker容器，接口会自动删除"@,
                RemovalStrategy::KillProcess => "终止持有接口的进程"@,
            },
    {
        match self {
            RemovalStrategy::InterfaceOnly => "仅删除接口，服务仍在运行，接口可能立即重建",
            RemovalStrategy::StopService => "停止服务并删除接口，服务仍会开机自启",
            RemovalStrategy::StopAndDisableService => "停止服务、禁用开机自启并删除接口",
            RemovalStrategy::StopContainer => "停止Docker容器，接口会自动删除",
            RemovalStrategy::KillProcess => "终止持有接口的进程",
        }
    }
}

} // verus!
