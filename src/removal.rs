use vstd::prelude::*;

use crate::command::{command_of, Command, CommandView};
use crate::model::{InterfaceOwner, NetInterface, OwnerView, RemovalStrategy};
use crate::ownership::{opt_view, owner_view};
use crate::text::{chars_of, contains, contains_exec, decimal, push_decimal, skip, skip_class, Class};

verus! {

/// The strategy for an owner: a service is stopped and disabled, a container
/// stopped, a process terminated, a managed connection's service stopped;
/// anything else, or no owner, leaves only the interface to delete.
pub open spec fn strategy_for(o: Option<OwnerView>) -> RemovalStrategy {
    match o {
        Some(OwnerView::SystemdService { .. }) => RemovalStrategy::StopAndDisableService,
        Some(OwnerView::DockerContainer { .. }) => RemovalStrategy::StopContainer,
        Some(OwnerView::Process { .. }) => RemovalStrategy::KillProcess,
        Some(OwnerView::NetworkManager { .. }) => RemovalStrategy::StopService,
        _ => RemovalStrategy::InterfaceOnly,
    }
}

/// The steps of a removal.
#[derive(Clone, Copy, Debug, PartialEq, Eq, Structural)]
pub enum Phase {
    /// Stop the owning unit.
    StopUnit,
    /// Disable the owning unit.
    DisableUnit,
    /// Stop the owning container.
    StopContainer,
    /// Send the owning process the graceful termination signal.
    Terminate,
    /// Wait the grace period.
    Grace,
    /// Look whether the process still exists.
    CheckAlive,
    /// Send the process the forceful termination signal.
    ForceKill,
    /// Delete the interface.
    Delete,
    Done,
}

/// The one failure that a removal raises: the interface was not deleted.
#[derive(Clone, Copy, Debug, PartialEq, Eq, Structural)]
pub enum RemovalError {
    DeletionFailure,
}

/// What the caller is to do for the current step.
pub enum RemovalAction {
    /// Run the command and report whether it succeeded.
    Run(Command),
    /// Wait this many milliseconds, then report.
    Wait(u64),
    /// Report whether the process with this id still exists.
    CheckProcess(u32),
    /// Nothing is left to do.
    Finished,
}

pub enum ActionView {
    Run(CommandView),
    Wait(u64),
    CheckProcess(u32),
    Finished,
}

impl View for RemovalAction {
    type V = ActionView;

    open spec fn view(&self) -> ActionView {
        match self {
            RemovalAction::Run(c) => ActionView::Run(c@),
            RemovalAction::Wait(ms) => ActionView::Wait(*ms),
            RemovalAction::CheckProcess(pid) => ActionView::CheckProcess(*pid),
            RemovalAction::Finished => ActionView::Finished,
        }
    }
}

/// The grace period between the graceful and the forceful signal, in milliseconds.
pub const DEFAULT_GRACE_MS: u64 = 1000;

/// A removal under way: a state machine that names one action at a time and
/// moves on with what the caller reports of it.
pub struct RemovalRun {
    pub iface_name: String,
    pub strategy: RemovalStrategy,
    /// The unit or container that the plan stops (empty when none).
    pub target: String,
    /// The process that the plan terminates (0 when none).
    pub pid: u32,
    pub grace_ms: u64,
    pub phase: Phase,
    /// The intermediate steps that failed, in order.
    pub failed_steps: Vec<Phase>,
    /// Whether the deletion succeeded.
    pub deleted: bool,
}

/// The first step of the plan for a strategy and an owner. A stop or kill step
/// is there only when the owner is of the kind that the strategy acts on; the
/// container runtime's own network is no container to stop.
pub open spec fn first_phase(s: RemovalStrategy, o: Option<OwnerView>) -> Phase {
    match o {
        Some(OwnerView::SystemdService { .. }) => if s == RemovalStrategy::StopService || s
            == RemovalStrategy::StopAndDisableService {
            Phase::StopUnit
        } else {
            Phase::Delete
        },
        Some(OwnerView::DockerContainer { id, .. }) => if s == RemovalStrategy::StopContainer
            && id != "system"@ {
            Phase::StopContainer
        } else {
            Phase::Delete
        },
        Some(OwnerView::Process { .. }) => if s == RemovalStrategy::KillProcess {
            Phase::Terminate
        } else {
            Phase::Delete
        },
        _ => Phase::Delete,
    }
}

/// The unit or container that an owner names.
pub open spec fn target_of(o: Option<OwnerView>) -> Seq<char> {
    match o {
        Some(OwnerView::SystemdService { name, .. }) => name,
        Some(OwnerView::DockerContainer { id, .. }) => id,
        _ => Seq::empty(),
    }
}

pub open spec fn pid_of(o: Option<OwnerView>) -> u32 {
    match o {
        Some(OwnerView::Process { pid, .. }) => pid,
        _ => 0,
    }
}

/// The step after `p`, given what the caller reported (`ok`: the command
/// succeeded, or the process still exists). Failed intermediate steps do not
/// stop the plan; only a failed deletion ends it unsuccessfully.
pub open spec fn next_phase(p: Phase, s: RemovalStrategy, ok: bool) -> Phase {
    match p {
        Phase::StopUnit => if s == RemovalStrategy::StopAndDisableService {
            Phase::DisableUnit
        } else {
            Phase::Delete
        },
        Phase::DisableUnit => Phase::Delete,
        Phase::StopContainer => Phase::Delete,
        Phase::Terminate => if ok {
            Phase::Grace
        } else {
            Phase::Delete
        },
        Phase::Grace => Phase::CheckAlive,
        Phase::CheckAlive => if ok {
            Phase::ForceKill
        } else {
            Phase::Delete
        },
        Phase::ForceKill => Phase::Delete,
        Phase::Delete => Phase::Done,
        Phase::Done => Phase::Done,
    }
}

/// Whether a failure of step `p` is recorded as a degraded intermediate step.
pub open spec fn is_intermediate(p: Phase) -> bool {
    p == Phase::StopUnit || p == Phase::DisableUnit || p == Phase::StopContainer || p
        == Phase::Terminate || p == Phase::ForceKill
}

/// The action of a step.
pub open spec fn action_of(r: RemovalRun) -> ActionView {
    match r.phase {
        Phase::StopUnit => ActionView::Run(command_of("systemctl"@, seq!["stop"@, r.target@])),
        Phase::DisableUnit => ActionView::Run(command_of("systemctl"@, seq!["disable"@, r.target@])),
        Phase::StopContainer => ActionView::Run(command_of("docker"@, seq!["stop"@, r.target@])),
        Phase::Terminate => ActionView::Run(command_of("kill"@, seq![decimal(r.pid as nat)])),
        Phase::Grace => ActionView::Wait(r.grace_ms),
        Phase::CheckAlive => ActionView::CheckProcess(r.pid),
        Phase::ForceKill => ActionView::Run(
            command_of("kill"@, seq!["-9"@, decimal(r.pid as nat)]),
        ),
        Phase::Delete => ActionView::Run(command_of("ip"@, seq!["link"@, "delete"@, r.iface_name@])),
        Phase::Done => ActionView::Finished,
    }
}

fn pid_text(pid: u32) -> (r: String)
    ensures
        r@ == decimal(pid as nat),
{
    let mut s = String::new();
    push_decimal(&mut s, pid);
    assert(s@ =~= decimal(pid as nat));
    s
}

impl RemovalRun {
    /// The action for the current step.
    pub fn next_action(&self) -> (r: RemovalAction)
        ensures
            r@ == action_of(*self),
    {
        match self.phase {
            Phase::StopUnit => {
                let mut c = Command::new("systemctl");
                c.arg("stop");
                c.arg(self.target.as_str());
                assert(c@.args =~= seq!["stop"@, self.target@]);
                RemovalAction::Run(c)
            },
            Phase::DisableUnit => {
                let mut c = Command::new("systemctl");
                c.arg("disable");
                c.arg(self.target.as_str());
                assert(c@.args =~= seq!["disable"@, self.target@]);
                RemovalAction::Run(c)
            },
            Phase::StopContainer => {
                let mut c = Command::new("docker");
                c.arg("stop");
                c.arg(self.target.as_str());
                assert(c@.args =~= seq!["stop"@, self.target@]);
                RemovalAction::Run(c)
            },
            Phase::Terminate => {
                let mut c = Command::new("kill");
                c.arg(pid_text(self.pid).as_str());
                assert(c@.args =~= seq![decimal(self.pid as nat)]);
                RemovalAction::Run(c)
            },
            Phase::Grace => RemovalAction::Wait(self.grace_ms),
            Phase::CheckAlive => RemovalAction::CheckProcess(self.pid),
            Phase::ForceKill => {
                let mut c = Command::new("kill");
                c.arg("-9");
                c.arg(pid_text(self.pid).as_str());
                assert(c@.args =~= seq!["-9"@, decimal(self.pid as nat)]);
                RemovalAction::Run(c)
            },
            Phase::Delete => RemovalAction::Run(crate::command::delete_interface(self.iface_name.as_str())),
            Phase::Done => RemovalAction::Finished,
        }
    }

    /// Moves on with what the caller reports of the current action: whether
    /// the command succeeded, or whether the process still exists.
    pub fn report(&mut self, ok: bool)
        ensures
            final(self).phase == next_phase(old(self).phase, old(self).strategy, ok),
            final(self).failed_steps@ == if !ok && is_intermediate(old(self).phase) {
                old(self).failed_steps@.push(old(self).phase)
            } else {
                old(self).failed_steps@
            },
            final(self).deleted == if old(self).phase == Phase::Delete {
                ok
            } else {
                old(self).deleted
            },
            final(self).iface_name == old(self).iface_name,
            final(self).strategy == old(self).strategy,
            final(self).target == old(self).target,
            final(self).pid == old(self).pid,
            final(self).grace_ms == old(self).grace_ms,
    {
        let p = self.phase;
        if !ok && (p == Phase::StopUnit || p == Phase::DisableUnit || p == Phase::StopContainer || p
            == Phase::Terminate || p == Phase::ForceKill) {
            self.failed_steps.push(p);
        }
        if p == Phase::Delete {
            self.deleted = ok;
        }
        self.phase = match p {
            Phase::StopUnit => if self.strategy == RemovalStrategy::StopAndDisableService {
                Phase::DisableUnit
            } else {
                Phase::Delete
            },
            Phase::DisableUnit => Phase::Delete,
            Phase::StopContainer => Phase::Delete,
            Phase::Terminate => if ok {
                Phase::Grace
            } else {
                Phase::Delete
            },
            Phase::Grace => Phase::CheckAlive,
            Phase::CheckAlive => if ok {
                Phase::ForceKill
            } else {
                Phase::Delete
            },
            Phase::ForceKill => Phase::Delete,
            Phase::Delete => Phase::Done,
            Phase::Done => Phase::Done,
        };
    }

    /// The result, once the plan is done: success exactly when the deletion succeeded.
    pub fn outcome(&self) -> (r: Option<Result<(), RemovalError>>)
        ensures
            self.phase != Phase::Done ==> r is None,
            self.phase == Phase::Done && self.deleted ==> r == Some(Ok::<(), RemovalError>(())),
            self.phase == Phase::Done && !self.deleted ==> r == Some(
                Err::<(), RemovalError>(RemovalError::DeletionFailure),
            ),
    {
        if self.phase != Phase::Done {
            None
        } else if self.deleted {
            Some(Ok(()))
        } else {
            Some(Err(RemovalError::DeletionFailure))
        }
    }
}


/// The warning for the interface of the SSH session.
pub open spec fn ssh_warning(name: Seq<char>) -> Seq<char> {
    "⚠️ 警告: "@ + name + " 是SSH连接使用的接口，删除后可能导致远程连接断开！"@
}

/// The warning for the default-route interface.
pub open spec fn default_route_warning(name: Seq<char>) -> Seq<char> {
    "⚠️ 警告: "@ + name + " 是默认路由接口，删除后可能无法访问外网！"@
}

/// The notice for an interface with addresses.
pub open spec fn address_warning(name: Seq<char>) -> Seq<char> {
    "⚠️ 提示: "@ + name + " 配置了IP地址，可能有活跃的网络连接"@
}

/// The warnings before removing interface `name`: one for each check that
/// applies, independently, in this order.
pub open spec fn safety_warnings(
    name: Seq<char>,
    ssh: bool,
    default_route: Option<Seq<char>>,
    has_addresses: bool,
) -> Seq<Seq<char>> {
    (if ssh {
        seq![ssh_warning(name)]
    } else {
        seq![]
    }) + (if default_route == Some(name) {
        seq![default_route_warning(name)]
    } else {
        seq![]
    }) + (if has_addresses {
        seq![address_warning(name)]
    } else {
        seq![]
    })
}

/// The local address of an SSH session: the third whitespace-separated field
/// of its connection description.
pub open spec fn ssh_local_address(conn: Seq<char>) -> Option<Seq<char>> {
    let a0 = skip(conn, 0, Class::Space);
    let a1 = skip(conn, a0, Class::NonSpace);
    let b0 = skip(conn, a1, Class::Space);
    let b1 = skip(conn, b0, Class::NonSpace);
    let c0 = skip(conn, b1, Class::Space);
    let c1 = skip(conn, c0, Class::NonSpace);
    if a1 > a0 && b1 > b0 && c1 > c0 {
        Some(conn.subrange(c0, c1))
    } else {
        None
    }
}

/// Whether an interface carries the SSH session's local address.
pub open spec fn is_ssh_spec(conn: Option<Seq<char>>, addr_listing: Option<Seq<char>>) -> bool {
    match (conn, addr_listing) {
        (Some(c), Some(l)) => ssh_local_address(c) matches Some(a) && contains(l, a),
        _ => false,
    }
}

/// Whether the interface is the one the SSH session runs over: its address
/// listing holds the session's local address. `ssh_connection` is the
/// session's connection description, `addr_listing` the interface's address
/// listing; either is `None` where it could not be had.
pub fn is_ssh_interface(ssh_connection: Option<&str>, addr_listing: Option<&str>) -> (r: bool)
    ensures
        r == is_ssh_spec(opt_view(ssh_connection), opt_view(addr_listing)),
{
    match (ssh_connection, addr_listing) {
        (Some(c), Some(l)) => {
            let cs = chars_of(c);
            let a0 = skip_class(&cs, 0, Class::Space);
            let a1 = skip_class(&cs, a0, Class::NonSpace);
            let b0 = skip_class(&cs, a1, Class::Space);
            let b1 = skip_class(&cs, b0, Class::NonSpace);
            let c0 = skip_class(&cs, b1, Class::Space);
            let c1 = skip_class(&cs, c0, Class::NonSpace);
            if a1 > a0 && b1 > b0 && c1 > c0 {
                let local = crate::text::slice_vec(&cs, c0, c1);
                contains_exec(&chars_of(l), &local)
            } else {
                false
            }
        },
        _ => false,
    }
}

fn warning_text(head: &str, name: &str, tail: &str) -> (r: String)
    ensures
        r@ == head@ + name@ + tail@,
{
    let mut s = String::from_str(head);
    s.append(name);
    s.append(tail);
    s
}

pub struct RemovalManager;

impl RemovalManager {
    /// The strategy for an interface, from its owner alone.
    pub fn determine_strategy(iface: &NetInterface) -> (r: RemovalStrategy)
        ensures
            r == strategy_for(owner_view(iface.owner)),
    {
        match &iface.owner {
            Some(InterfaceOwner::SystemdService { .. }) => RemovalStrategy::StopAndDisableService,
            Some(InterfaceOwner::DockerContainer { .. }) => RemovalStrategy::StopContainer,
            Some(InterfaceOwner::Process { .. }) => RemovalStrategy::KillProcess,
            Some(InterfaceOwner::NetworkManager { .. }) => RemovalStrategy::StopService,
            _ => RemovalStrategy::InterfaceOnly,
        }
    }

    /// The plan that removes `iface` by `strategy`, waiting `grace_ms` between
    /// the graceful and the forceful signal.
    pub fn remove_interface(iface: &NetInterface, strategy: RemovalStrategy, grace_ms: u64) -> (r:
        RemovalRun)
        ensures
            r.iface_name@ == iface.name@,
            r.strategy == strategy,
            r.target@ == target_of(owner_view(iface.owner)),
            r.pid == pid_of(owner_view(iface.owner)),
            r.grace_ms == grace_ms,
            r.phase == first_phase(strategy, owner_view(iface.owner)),
            r.failed_steps@.len() == 0,
            !r.deleted,
    {
        let mut target = String::new();
        let mut pid: u32 = 0;
        let mut phase = Phase::Delete;
        match &iface.owner {
            Some(InterfaceOwner::SystemdService { name, .. }) => {
                target = name.clone();
                if strategy == RemovalStrategy::StopService || strategy
                    == RemovalStrategy::StopAndDisableService {
                    phase = Phase::StopUnit;
                }
            },
            Some(InterfaceOwner::DockerContainer { id, .. }) => {
                target = id.clone();
                let system = chars_of("system");
                if strategy == RemovalStrategy::StopContainer && !crate::text::eq_exec(
                    &chars_of(id.as_str()),
                    &system,
                ) {
                    phase = Phase::StopContainer;
                }
            },
            Some(InterfaceOwner::Process { pid: p, .. }) => {
                pid = *p;
                if strategy == RemovalStrategy::KillProcess {
                    phase = Phase::Terminate;
                }
            },
            _ => {},
        }
        RemovalRun {
            iface_name: iface.name.clone(),
            strategy,
            target,
            pid,
            grace_ms,
            phase,
            failed_steps: Vec::new(),
            deleted: false,
        }
    }

    /// The advisory warnings before removing `iface`. `ssh_interface` says
    /// whether it carries the SSH session (see `is_ssh_interface`),
    /// `default_route_iface` which interface the default route uses.
    pub fn check_safety(
        iface: &NetInterface,
        ssh_interface: bool,
        default_route_iface: Option<&str>,
    ) -> (r: Vec<String>)
        ensures
            r.deep_view() == safety_warnings(
                iface.name@,
                ssh_interface,
                opt_view(default_route_iface),
                iface.ipv4_addresses@.len() > 0 || iface.ipv6_addresses@.len() > 0,
            ),
    {
        let mut warnings: Vec<String> = Vec::new();
        let name = iface.name.as_str();
        if ssh_interface {
            warnings.push(
                warning_text("⚠️ 警告: ", name, " 是SSH连接使用的接口，删除后可能导致远程连接断开！"),
            );
        }
        let ghost after_ssh = warnings.deep_view();
        let mut on_default = false;
        if let Some(d) = default_route_iface {
            on_default = crate::text::eq_exec(&chars_of(d), &chars_of(name));
        }
        if on_default {
            warnings.push(warning_text("⚠️ 警告: ", name, " 是默认路由接口，删除后可能无法访问外网！"));
        }
        let ghost after_default = warnings.deep_view();
        if iface.ipv4_addresses.len() > 0 || iface.ipv6_addresses.len() > 0 {
            warnings.push(warning_text("⚠️ 提示: ", name, " 配置了IP地址，可能有活跃的网络连接"));
        }
        assert(warnings.deep_view() =~= safety_warnings(
            iface.name@,
            ssh_interface,
            opt_view(default_route_iface),
            iface.ipv4_addresses@.len() > 0 || iface.ipv6_addresses@.len() > 0,
        ));
        warnings
    }
}

/// The strategy table covers the absence of an owner and the owners that no
/// teardown step acts on: each leaves only the interface to delete.
pub proof fn lemma_every_owner_has_one_strategy(o: Option<OwnerView>)
    ensures
        o is None ==> strategy_for(o) == RemovalStrategy::InterfaceOnly,
        o matches Some(OwnerView::Kernel { .. }) ==> strategy_for(o) == RemovalStrategy::InterfaceOnly,
        o matches Some(OwnerView::Unknown) ==> strategy_for(o) == RemovalStrategy::InterfaceOnly,
{
}

/// A process that still exists after the grace period gets the forceful
/// signal before the interface is deleted, whatever that signal's result.
pub proof fn lemma_surviving_process_is_killed_before_deletion(s: RemovalStrategy, waited: bool, killed: bool)
    ensures
        next_phase(Phase::Terminate, s, true) == Phase::Grace,
        next_phase(Phase::Grace, s, waited) == Phase::CheckAlive,
        next_phase(Phase::CheckAlive, s, true) == Phase::ForceKill,
        next_phase(Phase::ForceKill, s, killed) == Phase::Delete,
{
}

/// An interface that is the default-route interface and carries addresses
/// gets two distinct warnings, one for each check.
pub proof fn lemma_default_route_and_addresses_warn_separately(name: Seq<char>, ssh: bool)
    ensures
        ({
            let w = safety_warnings(name, ssh, Some(name), true);
            let k: int = if ssh { 1 } else { 0 };
            &&& w.len() == k + 2
            &&& w[k] == default_route_warning(name)
            &&& w[k + 1] == address_warning(name)
            &&& w[k] != w[k + 1]
        }),
{
    reveal_strlit("⚠️ 警告: ");
    reveal_strlit("⚠️ 提示: ");
    let a = default_route_warning(name);
    let b = address_warning(name);
    assert(a[3] != b[3]);
}

} // verus!
