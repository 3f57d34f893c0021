use nicman::model::{InterfaceKind, InterfaceOwner, ServiceStatus};
use nicman::ownership::{
    detector_at, is_docker_bridge, parse_container_list, parse_pid, Detector, OwnerDetector,
    OwnerResolution, DETECTOR_COUNT,
};

fn kernel_bridge() -> InterfaceOwner {
    InterfaceOwner::Kernel { module: "bridge".to_string() }
}

#[test]
fn detectors_run_in_fixed_order() {
    let order: Vec<Detector> = (0..DETECTOR_COUNT).map(detector_at).collect();
    assert_eq!(
        order,
        vec![
            Detector::Container,
            Detector::Service,
            Detector::ProcessFd,
            Detector::NetworkManager,
            Detector::KernelModule
        ]
    );
}

#[test]
fn container_outranks_kernel_module() {
    let mut res = OwnerResolution::new();
    assert_eq!(res.next_detector(), Some(Detector::Container));
    let container = OwnerDetector::check_docker_container(
        "docker0",
        InterfaceKind::Docker,
        true,
        None,
        &Vec::new(),
    );
    res.record(container);
    // the chain stops: the kernel-module detector is never asked
    assert_eq!(res.next_detector(), None);
    match res.owner() {
        Some(InterfaceOwner::DockerContainer { id, name, image }) => {
            assert_eq!(id, "system");
            assert_eq!(name, "Docker网桥");
            assert_eq!(image, "docker-network");
        }
        other => panic!("unexpected owner {:?}", other),
    }
    // the kernel-module detector alone would have claimed it
    assert!(OwnerDetector::check_kernel_module(InterfaceKind::Bridge, Some("bridge 1 0")).is_some());
}

#[test]
fn later_detector_answers_when_earlier_ones_do_not() {
    let mut res = OwnerResolution::new();
    let mut asked = Vec::new();
    while let Some(d) = res.next_detector() {
        asked.push(d);
        let found = if d == Detector::KernelModule { Some(kernel_bridge()) } else { None };
        res.record(found);
    }
    assert_eq!(asked.len(), 5);
    assert!(matches!(res.owner(), Some(InterfaceOwner::Kernel { .. })));
}

#[test]
fn no_detector_answers_gives_no_owner() {
    let mut res = OwnerResolution::new();
    while res.next_detector().is_some() {
        res.record(None);
    }
    assert!(res.owner().is_none());
}

#[test]
fn container_detector_cases() {
    let list = parse_container_list("abc123\tweb\tnginx:latest\ndef456\tdb\tpostgres:16\nbroken line\n");
    assert_eq!(list.len(), 2);
    assert_eq!(list[1].id, "def456");
    assert_eq!(list[1].name, "db");
    assert_eq!(list[1].image, "postgres:16");

    // not a container-style interface
    assert!(OwnerDetector::check_docker_container("eth0", InterfaceKind::Physical, true, Some(&list), &vec![true, true]).is_none());
    // runtime unavailable
    assert!(OwnerDetector::check_docker_container("veth1", InterfaceKind::Veth, false, Some(&list), &vec![true, true]).is_none());
    // several containers: the first with evidence
    match OwnerDetector::check_docker_container("veth1", InterfaceKind::Veth, true, Some(&list), &vec![false, true]) {
        Some(InterfaceOwner::DockerContainer { id, .. }) => assert_eq!(id, "def456"),
        other => panic!("unexpected owner {:?}", other),
    }
    assert!(OwnerDetector::check_docker_container("veth1", InterfaceKind::Veth, true, Some(&list), &vec![false, false]).is_none());
    // exactly one container: attributed without evidence
    let one = parse_container_list("abc123\tweb\tnginx:latest\n");
    match OwnerDetector::check_docker_container("veth1", InterfaceKind::Veth, true, Some(&one), &Vec::new()) {
        Some(InterfaceOwner::DockerContainer { name, image, .. }) => {
            assert_eq!(name, "web");
            assert_eq!(image, "nginx:latest");
        }
        other => panic!("unexpected owner {:?}", other),
    }
    assert!(is_docker_bridge("br-1a2b3c"));
    assert!(!is_docker_bridge("bridge0"));
}

#[test]
fn container_evidence_from_namespace() {
    assert_eq!(parse_pid("4242\n"), Some(4242));
    assert_eq!(parse_pid("  7 "), Some(7));
    assert_eq!(parse_pid(""), None);
    assert_eq!(parse_pid("12a"), None);
    assert!(OwnerDetector::container_has_veth(Some("1: lo: <LOOPBACK>\n12: eth0@if13: <UP>")));
    assert!(!OwnerDetector::container_has_veth(Some("1: lo: <LOOPBACK>")));
    assert!(!OwnerDetector::container_has_veth(None));
}

#[test]
fn wireguard_service_scenario() {
    let units = OwnerDetector::service_candidates("wg0", InterfaceKind::WireGuard);
    assert_eq!(units[0], "wg-quick@wg0.service");
    assert_eq!(units.len(), 5);
    let report = "● wg-quick@wg0.service - WireGuard via wg-quick(8) for wg0\n     Loaded: loaded\n     Active: active since Mon 2024-01-01 10:00:00 UTC; 1h ago\n";
    let mut reports: Vec<Option<String>> = vec![None; units.len()];
    reports[0] = Some(report.to_string());
    let owner = OwnerDetector::check_systemd_service("wg0", InterfaceKind::WireGuard, &reports);
    match &owner {
        Some(InterfaceOwner::SystemdService { name, status, start_time }) => {
            assert_eq!(name, "wg-quick@wg0.service");
            assert_eq!(*status, ServiceStatus::Active);
            assert_eq!(start_time.as_deref(), Some("Mon 2024-01-01 10:00:00 UTC"));
        }
        other => panic!("unexpected owner {:?}", other),
    }
    let mut iface = nicman::model::NetInterface::new("wg0".to_string(), InterfaceKind::WireGuard);
    iface.owner = owner;
    assert_eq!(
        nicman::removal::RemovalManager::determine_strategy(&iface),
        nicman::model::RemovalStrategy::StopAndDisableService
    );
}

#[test]
fn service_candidates_and_statuses() {
    let units = OwnerDetector::service_candidates("tun0", InterfaceKind::Tun);
    assert_eq!(
        units,
        vec![
            "wg-quick@tun0.service".to_string(),
            "openvpn@tun0.service".to_string(),
            "openvpn-client@tun0.service".to_string(),
            "netctl@tun0.service".to_string()
        ]
    );
    let reports = vec![None, None, Some("   Active: failed (Result: exit-code)".to_string()), None];
    match OwnerDetector::check_systemd_service("tun0", InterfaceKind::Tun, &reports) {
        Some(InterfaceOwner::SystemdService { name, status, start_time }) => {
            assert_eq!(name, "openvpn-client@tun0.service");
            assert_eq!(status, ServiceStatus::Failed);
            assert_eq!(start_time, None);
        }
        other => panic!("unexpected owner {:?}", other),
    }
    assert!(OwnerDetector::check_systemd_service("tun0", InterfaceKind::Tun, &vec![None; 4]).is_none());
    assert!(matches!(
        OwnerDetector::check_service("x.service", Some("Active: inactive (dead)")),
        Some(InterfaceOwner::SystemdService { status: ServiceStatus::Inactive, .. })
    ));
    assert!(matches!(
        OwnerDetector::check_service("x.service", Some("nothing")),
        Some(InterfaceOwner::SystemdService { status: ServiceStatus::Unknown, .. })
    ));
    assert!(OwnerDetector::check_service("x.service", None).is_none());
    assert_eq!(OwnerDetector::extract_start_time("since Tue;"), Some("Tue".to_string()));
    assert_eq!(OwnerDetector::extract_start_time("since Tue"), None);
}

#[test]
fn process_detector_cases() {
    let links = vec!["/dev/null".to_string(), "/dev/net/tun".to_string()];
    let owner = OwnerDetector::check_process_tun(
        321,
        "tun0",
        &links,
        Some("5: tun0: <POINTOPOINT,UP> mtu 1500"),
        Some("openvpn\n"),
        Some("/usr/sbin/openvpn\0--config\0client.conf\0"),
    );
    match owner {
        Some(InterfaceOwner::Process { pid, name, cmdline }) => {
            assert_eq!(pid, 321);
            assert_eq!(name, "openvpn");
            assert_eq!(cmdline, "/usr/sbin/openvpn --config client.conf");
        }
        other => panic!("unexpected owner {:?}", other),
    }
    // the namespace probe failed: the process is trusted
    match OwnerDetector::check_process_tun(9, "tun0", &links, None, None, None) {
        Some(InterfaceOwner::Process { name, cmdline, .. }) => {
            assert_eq!(name, "pid-9");
            assert_eq!(cmdline, "");
        }
        other => panic!("unexpected owner {:?}", other),
    }
    // the namespace does not hold the interface
    assert!(OwnerDetector::check_process_tun(9, "tun0", &links, Some("1: lo:"), None, None).is_none());
    // no descriptor on the tun device
    assert!(OwnerDetector::check_process_tun(9, "tun0", &vec!["/dev/null".to_string()], None, None, None).is_none());
    assert!(OwnerDetector::process_owns_interface(None, "tun0"));
}

#[test]
fn connection_manager_and_kernel_module() {
    let report = "GENERAL.DEVICE:                         eth0\nGENERAL.CONNECTION:                     Wired connection 1\nGENERAL.CON-UUID:                       0b7f8f7e-1111-2222-3333-444455556666\n";
    match OwnerDetector::check_network_manager(true, Some(report)) {
        Some(InterfaceOwner::NetworkManager { connection, uuid }) => {
            assert_eq!(connection, "Wired connection 1");
            assert_eq!(uuid, "0b7f8f7e-1111-2222-3333-444455556666");
        }
        other => panic!("unexpected owner {:?}", other),
    }
    assert!(OwnerDetector::check_network_manager(false, Some(report)).is_none());
    assert!(OwnerDetector::check_network_manager(true, Some("GENERAL.DEVICE: eth0")).is_none());

    assert_eq!(OwnerDetector::module_for_kind(InterfaceKind::Vlan), Some("8021q"));
    assert_eq!(OwnerDetector::module_for_kind(InterfaceKind::Veth), None);
    assert!(matches!(
        OwnerDetector::check_kernel_module(InterfaceKind::WireGuard, Some("wireguard  98304  0\n")),
        Some(InterfaceOwner::Kernel { .. })
    ));
    assert!(OwnerDetector::check_kernel_module(InterfaceKind::Vlan, Some("bridge 1\n")).is_none());
    assert!(OwnerDetector::check_kernel_module(InterfaceKind::Tun, Some("tun 1\n")).is_none());
}
