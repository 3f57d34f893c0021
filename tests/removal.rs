use nicman::inventory::{detect_interface_kind, KindMarkers};
use nicman::model::{InterfaceKind, InterfaceOwner, NetInterface, RemovalStrategy, ServiceStatus};
use nicman::ownership::OwnerResolution;
use nicman::removal::{
    is_ssh_interface, Phase, RemovalAction, RemovalError, RemovalManager, RemovalRun,
    DEFAULT_GRACE_MS,
};

fn run_args(action: &RemovalAction) -> Vec<String> {
    match action {
        RemovalAction::Run(c) => {
            let mut v = vec![c.program.clone()];
            v.extend(c.args.iter().cloned());
            v
        }
        other => panic!("expected a command, got {:?}", describe(other)),
    }
}

fn describe(action: &RemovalAction) -> String {
    match action {
        RemovalAction::Run(c) => format!("run {} {:?}", c.program, c.args),
        RemovalAction::Wait(ms) => format!("wait {}", ms),
        RemovalAction::CheckProcess(pid) => format!("check {}", pid),
        RemovalAction::Finished => "finished".to_string(),
    }
}

fn strs(v: &[&str]) -> Vec<String> {
    v.iter().map(|s| s.to_string()).collect()
}

#[test]
fn test_determine_strategy() {
    let mut iface = NetInterface::new("test0".to_string(), InterfaceKind::Tun);

    iface.owner = Some(InterfaceOwner::SystemdService {
        name: "test.service".to_string(),
        status: ServiceStatus::Active,
        start_time: None,
    });
    assert!(matches!(
        RemovalManager::determine_strategy(&iface),
        RemovalStrategy::StopAndDisableService
    ));

    iface.owner = Some(InterfaceOwner::DockerContainer {
        id: "abc123".to_string(),
        name: "test-container".to_string(),
        image: "test:latest".to_string(),
    });
    assert!(matches!(
        RemovalManager::determine_strategy(&iface),
        RemovalStrategy::StopContainer
    ));
}

#[test]
fn strategy_table_is_total() {
    let mut iface = NetInterface::new("x0".to_string(), InterfaceKind::Unknown);
    let cases = vec![
        (None, RemovalStrategy::InterfaceOnly),
        (Some(InterfaceOwner::Process { pid: 1, name: "p".to_string(), cmdline: String::new() }), RemovalStrategy::KillProcess),
        (Some(InterfaceOwner::NetworkManager { connection: "c".to_string(), uuid: "u".to_string() }), RemovalStrategy::StopService),
        (Some(InterfaceOwner::Kernel { module: "bridge".to_string() }), RemovalStrategy::InterfaceOnly),
        (Some(InterfaceOwner::Unknown), RemovalStrategy::InterfaceOnly),
    ];
    for (owner, expected) in cases {
        iface.owner = owner;
        assert_eq!(RemovalManager::determine_strategy(&iface), expected);
    }
}

fn drive(run: &mut RemovalRun, answers: &[bool]) -> Vec<String> {
    let mut seen = Vec::new();
    let mut i = 0;
    loop {
        let action = run.next_action();
        seen.push(describe(&action));
        if let RemovalAction::Finished = action {
            break;
        }
        run.report(answers[i]);
        i += 1;
    }
    seen
}

#[test]
fn veth_without_owner_is_deleted_directly() {
    let kind = detect_interface_kind("veth1234", &KindMarkers::absent());
    assert_eq!(kind, InterfaceKind::Veth);
    let mut res = OwnerResolution::new();
    while res.next_detector().is_some() {
        res.record(None);
    }
    let mut iface = NetInterface::new("veth1234".to_string(), kind);
    iface.owner = res.owner();
    assert!(iface.owner.is_none());
    let strategy = RemovalManager::determine_strategy(&iface);
    assert_eq!(strategy, RemovalStrategy::InterfaceOnly);

    let mut ok = RemovalManager::remove_interface(&iface, strategy, DEFAULT_GRACE_MS);
    assert_eq!(run_args(&ok.next_action()), strs(&["ip", "link", "delete", "veth1234"]));
    assert_eq!(ok.outcome(), None);
    ok.report(true);
    assert!(matches!(ok.next_action(), RemovalAction::Finished));
    assert_eq!(ok.outcome(), Some(Ok(())));

    let mut gone = RemovalManager::remove_interface(&iface, strategy, DEFAULT_GRACE_MS);
    gone.report(false);
    assert_eq!(gone.outcome(), Some(Err(RemovalError::DeletionFailure)));
}

#[test]
fn surviving_process_gets_forceful_signal_before_deletion() {
    let mut iface = NetInterface::new("tun0".to_string(), InterfaceKind::Tun);
    iface.owner = Some(InterfaceOwner::Process { pid: 1234, name: "openvpn".to_string(), cmdline: String::new() });
    let strategy = RemovalManager::determine_strategy(&iface);
    assert_eq!(strategy, RemovalStrategy::KillProcess);
    let mut run = RemovalManager::remove_interface(&iface, strategy, DEFAULT_GRACE_MS);
    assert_eq!(run_args(&run.next_action()), strs(&["kill", "1234"]));
    run.report(true);
    assert!(matches!(run.next_action(), RemovalAction::Wait(1000)));
    run.report(true);
    assert!(matches!(run.next_action(), RemovalAction::CheckProcess(1234)));
    run.report(true);
    assert_eq!(run_args(&run.next_action()), strs(&["kill", "-9", "1234"]));
    run.report(true);
    assert_eq!(run_args(&run.next_action()), strs(&["ip", "link", "delete", "tun0"]));
    run.report(true);
    assert_eq!(run.outcome(), Some(Ok(())));
    assert!(run.failed_steps.is_empty());
}

#[test]
fn process_gone_after_grace_skips_forceful_signal() {
    let mut iface = NetInterface::new("tun0".to_string(), InterfaceKind::Tun);
    iface.owner = Some(InterfaceOwner::Process { pid: 77, name: "vpn".to_string(), cmdline: String::new() });
    let mut run = RemovalManager::remove_interface(&iface, RemovalStrategy::KillProcess, 2500);
    let seen = drive(&mut run, &[true, true, false, true]);
    assert_eq!(
        seen,
        vec!["run kill [\"77\"]", "wait 2500", "check 77", "run ip [\"link\", \"delete\", \"tun0\"]", "finished"]
    );
    // a failed graceful signal goes straight to deletion and is recorded
    let mut run = RemovalManager::remove_interface(&iface, RemovalStrategy::KillProcess, 2500);
    run.report(false);
    assert_eq!(run.phase, Phase::Delete);
    assert_eq!(run.failed_steps, vec![Phase::Terminate]);
}

#[test]
fn service_stop_and_disable_continue_past_failures() {
    let mut iface = NetInterface::new("wg0".to_string(), InterfaceKind::WireGuard);
    iface.owner = Some(InterfaceOwner::SystemdService {
        name: "wg-quick@wg0.service".to_string(),
        status: ServiceStatus::Active,
        start_time: None,
    });
    let mut run = RemovalManager::remove_interface(&iface, RemovalStrategy::StopAndDisableService, DEFAULT_GRACE_MS);
    assert_eq!(run_args(&run.next_action()), strs(&["systemctl", "stop", "wg-quick@wg0.service"]));
    run.report(false);
    assert_eq!(run_args(&run.next_action()), strs(&["systemctl", "disable", "wg-quick@wg0.service"]));
    run.report(false);
    assert_eq!(run_args(&run.next_action()), strs(&["ip", "link", "delete", "wg0"]));
    run.report(true);
    assert_eq!(run.outcome(), Some(Ok(())));
    assert_eq!(run.failed_steps, vec![Phase::StopUnit, Phase::DisableUnit]);

    let mut run = RemovalManager::remove_interface(&iface, RemovalStrategy::StopService, DEFAULT_GRACE_MS);
    let seen = drive(&mut run, &[true, true]);
    assert_eq!(seen.len(), 3);
}

#[test]
fn container_plans() {
    let mut iface = NetInterface::new("veth9".to_string(), InterfaceKind::Veth);
    iface.owner = Some(InterfaceOwner::DockerContainer { id: "abc123".to_string(), name: "web".to_string(), image: "nginx".to_string() });
    let mut run = RemovalManager::remove_interface(&iface, RemovalStrategy::StopContainer, DEFAULT_GRACE_MS);
    assert_eq!(run_args(&run.next_action()), strs(&["docker", "stop", "abc123"]));
    run.report(true);
    assert_eq!(run_args(&run.next_action()), strs(&["ip", "link", "delete", "veth9"]));

    let mut bridge = NetInterface::new("docker0".to_string(), InterfaceKind::Docker);
    bridge.owner = Some(InterfaceOwner::DockerContainer { id: "system".to_string(), name: "Docker网桥".to_string(), image: "docker-network".to_string() });
    let run = RemovalManager::remove_interface(&bridge, RemovalStrategy::StopContainer, DEFAULT_GRACE_MS);
    assert_eq!(run_args(&run.next_action()), strs(&["ip", "link", "delete", "docker0"]));
}

#[test]
fn default_route_and_addresses_give_two_warnings() {
    let mut iface = NetInterface::new("eth0".to_string(), InterfaceKind::Physical);
    iface.ipv4_addresses.push("192.168.1.100/24".to_string());
    let w = RemovalManager::check_safety(&iface, false, Some("eth0"));
    assert_eq!(w.len(), 2);
    assert_ne!(w[0], w[1]);
    assert_eq!(w[0], "⚠️ 警告: eth0 是默认路由接口，删除后可能无法访问外网！");
    assert_eq!(w[1], "⚠️ 提示: eth0 配置了IP地址，可能有活跃的网络连接");

    let all = RemovalManager::check_safety(&iface, true, Some("eth0"));
    assert_eq!(all.len(), 3);
    assert!(all[0].contains("SSH"));
    assert!(RemovalManager::check_safety(&NetInterface::new("dummy0".to_string(), InterfaceKind::Unknown), false, Some("eth0")).is_empty());
}

#[test]
fn ssh_interface_from_session() {
    let conn = "203.0.113.9 52314 192.168.1.100 22";
    let listing = "2: eth0    inet 192.168.1.100/24 brd 192.168.1.255 scope global eth0";
    assert!(is_ssh_interface(Some(conn), Some(listing)));
    assert!(!is_ssh_interface(Some(conn), Some("3: wlan0    inet 10.0.0.2/24")));
    assert!(!is_ssh_interface(None, Some(listing)));
    assert!(!is_ssh_interface(Some("203.0.113.9 52314"), Some(listing)));
}
