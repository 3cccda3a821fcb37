use vmtools::bridges::{
    available_networks_from, bridges_from_networks, collect_all_macs, interfaces_from_rows,
    parse_bridge_links, parse_bridge_paths, select_system_bridges,
};
use vmtools::classify::net_start_result;
use vmtools::error::VmError;
use vmtools::parse::parse_domiflist;
use vmtools::reconcile::{
    auto_fix_plan, detect_network_mismatches, fix_action_for, fix_description, FixAction,
    NetworkInterface, NetworkIssueType, NetworkMismatch,
};

fn iface(mac: &str, network: &str, bridge: &str, active: bool) -> NetworkInterface {
    NetworkInterface {
        mac_address: mac.to_string(),
        network: network.to_string(),
        bridge: bridge.to_string(),
        is_active: active,
    }
}

fn strings(v: &[&str]) -> Vec<String> {
    v.iter().map(|s| s.to_string()).collect()
}

#[test]
fn duplicate_mac_yields_one_mismatch_per_offending_interface() {
    // three machines; two interfaces across the fleet share one address
    let vm_interfaces = vec![
        iface("52:54:00:11:22:33", "default", "virbr0", true),
        iface("52:54:00:11:22:33", "default", "virbr0", true),
        iface("52:54:00:aa:bb:cc", "default", "virbr0", true),
    ];
    let networks = vec![iface("", "default", "virbr0", true)];
    let all_macs = strings(&[
        "52:54:00:11:22:33",
        "52:54:00:11:22:33",
        "52:54:00:aa:bb:cc",
    ]);
    let bridges = strings(&["virbr0"]);
    let mismatches = detect_network_mismatches(&vm_interfaces, &networks, &all_macs, &bridges);
    let dups: Vec<&NetworkMismatch> = mismatches
        .iter()
        .filter(|m| m.issue_type == NetworkIssueType::DuplicateMacAddress)
        .collect();
    assert_eq!(dups.len(), 2);
    for d in &dups {
        assert_eq!(d.interface_name, "default-dup-mac");
        assert!(d.suggested_config.mac_address.starts_with("52:54:00:"));
        assert_eq!(d.suggested_config.mac_address.len(), 17);
        assert_eq!(d.suggested_config.network, "default");
        assert_eq!(d.suggested_config.bridge, "virbr0");
    }
    // each offending interface gets its own freshly generated address
    assert_ne!(
        dups[0].suggested_config.mac_address,
        dups[1].suggested_config.mac_address
    );
}

#[test]
fn inactive_network_yields_one_mismatch_suggesting_activation() {
    let vm_interfaces = vec![iface("52:54:00:01:02:03", "lab", "virbr1", false)];
    let networks = vec![
        iface("", "default", "virbr0", true),
        iface("", "lab", "virbr1", false),
    ];
    let all_macs = strings(&["52:54:00:01:02:03"]);
    let bridges = strings(&["virbr0", "virbr1"]);
    let mismatches = detect_network_mismatches(&vm_interfaces, &networks, &all_macs, &bridges);
    let inactive: Vec<&NetworkMismatch> = mismatches
        .iter()
        .filter(|m| m.issue_type == NetworkIssueType::InactiveNetwork)
        .collect();
    assert_eq!(inactive.len(), 1);
    let m = inactive[0];
    assert_eq!(m.interface_name, "lab");
    assert_eq!(m.suggested_config.network, "lab");
    assert_eq!(m.suggested_config.bridge, "virbr1");
    assert_eq!(m.suggested_config.mac_address, "52:54:00:01:02:03");
    assert!(m.suggested_config.is_active);
}

#[test]
fn invalid_network_reference_falls_back_to_active_default() {
    let vm_interfaces = vec![iface("52:54:00:01:02:03", "ghost", "virbr0", false)];
    let networks = vec![iface("", "default", "virbr0", true)];
    let all_macs = strings(&["52:54:00:01:02:03"]);
    let bridges = strings(&["virbr0"]);
    let mismatches = detect_network_mismatches(&vm_interfaces, &networks, &all_macs, &bridges);
    let invalid: Vec<&NetworkMismatch> = mismatches
        .iter()
        .filter(|m| m.issue_type == NetworkIssueType::InvalidNetworkReference)
        .collect();
    assert_eq!(invalid.len(), 1);
    assert_eq!(invalid[0].suggested_config.network, "default");
    assert!(invalid[0].suggested_config.is_active);
}

#[test]
fn invalid_network_reference_placeholder_when_no_default() {
    let vm_interfaces = vec![iface("52:54:00:01:02:03", "ghost", "virbr0", false)];
    let networks: Vec<NetworkInterface> = Vec::new();
    let all_macs = strings(&["52:54:00:01:02:03"]);
    let bridges = strings(&["virbr0"]);
    let mismatches = detect_network_mismatches(&vm_interfaces, &networks, &all_macs, &bridges);
    let invalid: Vec<&NetworkMismatch> = mismatches
        .iter()
        .filter(|m| m.issue_type == NetworkIssueType::InvalidNetworkReference)
        .collect();
    assert_eq!(invalid.len(), 1);
    let s = &invalid[0].suggested_config;
    assert_eq!(s.network, "default");
    assert_eq!(s.bridge, "virbr0");
    assert_eq!(s.mac_address, "52:54:00:01:02:03");
    assert!(!s.is_active);
}

#[test]
fn missing_bridge_suggests_conventional_default() {
    let vm_interfaces = vec![iface("52:54:00:01:02:03", "default", "br-gone", true)];
    let networks = vec![iface("", "default", "br-gone", true)];
    let all_macs = strings(&["52:54:00:01:02:03"]);
    let bridges = strings(&["virbr0"]);
    let mismatches = detect_network_mismatches(&vm_interfaces, &networks, &all_macs, &bridges);
    let missing: Vec<&NetworkMismatch> = mismatches
        .iter()
        .filter(|m| m.issue_type == NetworkIssueType::MissingBridge)
        .collect();
    assert_eq!(missing.len(), 1);
    assert_eq!(missing[0].interface_name, "br-gone-missing-bridge");
    assert_eq!(missing[0].suggested_config.bridge, "virbr0");
    assert!(missing[0].suggested_config.is_active);
}

#[test]
fn conflicting_configuration_on_shared_bridge() {
    let vm_interfaces = vec![
        iface("52:54:00:00:00:01", "default", "virbr0", true),
        iface("52:54:00:00:00:02", "lab", "virbr0", false),
    ];
    let networks = vec![
        iface("", "default", "virbr0", true),
        iface("", "lab", "virbr0", false),
    ];
    let all_macs = strings(&["52:54:00:00:00:01", "52:54:00:00:00:02"]);
    let bridges = strings(&["virbr0"]);
    let mismatches = detect_network_mismatches(&vm_interfaces, &networks, &all_macs, &bridges);
    let conflicts: Vec<&NetworkMismatch> = mismatches
        .iter()
        .filter(|m| {
            m.issue_type == NetworkIssueType::ConflictingConfiguration
                && m.interface_name.ends_with("-config-conflict")
        })
        .collect();
    // one report per affected interface, never twice for the same one
    assert_eq!(conflicts.len(), 2);
    assert!(conflicts.iter().all(|m| m.suggested_config.is_active));
}

#[test]
fn bridge_differing_from_definition_is_a_conflict() {
    let vm_interfaces = vec![iface("52:54:00:00:00:01", "default", "br-old", true)];
    let networks = vec![iface("", "default", "virbr0", true)];
    let all_macs = strings(&["52:54:00:00:00:01"]);
    let bridges = strings(&["virbr0", "br-old"]);
    let mismatches = detect_network_mismatches(&vm_interfaces, &networks, &all_macs, &bridges);
    let conflicts: Vec<&NetworkMismatch> = mismatches
        .iter()
        .filter(|m| m.interface_name == "default-bridge-mismatch")
        .collect();
    assert_eq!(conflicts.len(), 1);
    assert_eq!(conflicts[0].issue_type, NetworkIssueType::ConflictingConfiguration);
    assert_eq!(conflicts[0].suggested_config.bridge, "virbr0");
}

#[test]
fn clean_configuration_yields_no_mismatches() {
    let vm_interfaces = vec![iface("52:54:00:00:00:01", "default", "virbr0", true)];
    let networks = vec![iface("", "default", "virbr0", true)];
    let all_macs = strings(&["52:54:00:00:00:01"]);
    let bridges = strings(&["virbr0"]);
    let mismatches = detect_network_mismatches(&vm_interfaces, &networks, &all_macs, &bridges);
    assert!(mismatches.is_empty());
}

#[test]
fn auto_fix_inactive_network_is_idempotent() {
    let mismatch = NetworkMismatch {
        interface_name: "lab".to_string(),
        issue_type: NetworkIssueType::InactiveNetwork,
        current_config: Some(iface("52:54:00:01:02:03", "lab", "virbr1", false)),
        suggested_config: iface("52:54:00:01:02:03", "lab", "virbr1", true),
    };
    // first run: the network starts cleanly
    let action = fix_action_for(&mismatch, "web-01");
    match &action {
        FixAction::StartNetwork(n) => assert_eq!(n, "lab"),
        _ => panic!("inactive network must map to a network start"),
    }
    assert!(net_start_result(true, "lab", "").is_ok());
    // second run on the already-fixed network: same action, and the
    // already-active report counts as success, not failure
    let again = fix_action_for(&mismatch, "web-01");
    assert!(matches!(again, FixAction::StartNetwork(_)));
    let second = net_start_result(false, "lab", "error: Requested operation is not valid: network 'lab' is already active");
    assert!(second.is_ok());
}

#[test]
fn net_start_true_failure_is_a_command_error() {
    let r = net_start_result(false, "lab", "error: Network not found: no network with matching name 'lab'");
    match r {
        Err(VmError::CommandError(msg)) => {
            assert!(msg.contains("Failed to start network lab"));
        },
        _ => panic!("a failed start of a missing network must be a command error"),
    }
}

#[test]
fn fix_actions_for_structural_issues_require_manual_intervention() {
    for issue in [
        NetworkIssueType::InvalidNetworkReference,
        NetworkIssueType::MissingBridge,
        NetworkIssueType::ConflictingConfiguration,
    ] {
        let m = NetworkMismatch {
            interface_name: "x".to_string(),
            issue_type: issue,
            current_config: None,
            suggested_config: iface("", "default", "virbr0", true),
        };
        match fix_action_for(&m, "web-01") {
            FixAction::ManualIntervention(msg) => {
                assert_eq!(msg, "Manual intervention required: virsh edit web-01");
            },
            _ => panic!("structural issues must not be fixed automatically"),
        }
    }
}

#[test]
fn fix_plan_covers_every_mismatch_in_order() {
    let dup = NetworkMismatch {
        interface_name: "default-dup-mac".to_string(),
        issue_type: NetworkIssueType::DuplicateMacAddress,
        current_config: None,
        suggested_config: iface("52:54:00:99:88:77", "default", "virbr0", true),
    };
    let inactive = NetworkMismatch {
        interface_name: "lab".to_string(),
        issue_type: NetworkIssueType::InactiveNetwork,
        current_config: None,
        suggested_config: iface("52:54:00:01:02:03", "lab", "virbr1", true),
    };
    let plan = auto_fix_plan(&vec![dup, inactive], "web-01");
    assert_eq!(plan.len(), 2);
    match &plan[0] {
        FixAction::RewriteMacAddress(mac) => assert_eq!(mac, "52:54:00:99:88:77"),
        _ => panic!("duplicate address must map to an address rewrite"),
    }
    assert_eq!(fix_description(&plan[0]), "Updated MAC address to 52:54:00:99:88:77");
    assert_eq!(fix_description(&plan[1]), "Started network lab");
}

#[test]
fn bridge_discovery_prefers_link_listing() {
    let links = "1: lo: <LOOPBACK,UP,LOWER_UP> mtu 65536\n3: virbr0: <NO-CARRIER,BROADCAST,MULTICAST,UP> mtu 1500\n4: br-lan: <BROADCAST> mtu 1500\n5: eth0: <UP> mtu 1500\n";
    let bridges = parse_bridge_links(links);
    assert_eq!(bridges, strings(&["virbr0", "br-lan"]));
    let selected = select_system_bridges(links, "", &Vec::new());
    assert_eq!(selected, strings(&["virbr0", "br-lan"]));
}

#[test]
fn bridge_discovery_falls_back_to_paths_then_networks() {
    let paths = "/sys/class/net/virbr0\n/sys/class/net/br-lan\n";
    assert_eq!(parse_bridge_paths(paths), strings(&["virbr0", "br-lan"]));
    let selected = select_system_bridges("", paths, &Vec::new());
    assert_eq!(selected, strings(&["virbr0", "br-lan"]));
    let nets = vec![
        iface("", "default", "virbr0", true),
        iface("", "lab", "virbr0", false),
        iface("", "dmz", "virbr2", true),
    ];
    let last = select_system_bridges("", "", &nets);
    assert_eq!(last, strings(&["virbr0", "virbr2"]));
    assert_eq!(bridges_from_networks(&nets), strings(&["virbr0", "virbr2"]));
}

#[test]
fn interfaces_are_assembled_from_rows_and_activity() {
    let listing = " Interface   Type      Source    Model    MAC\n----------------------------------------------\n vnet0       network   default   virtio   52:54:00:11:22:33\n";
    let rows = parse_domiflist(listing);
    let activity = vec![("network".to_string(), true)];
    let ifaces = interfaces_from_rows(&rows, &activity);
    assert_eq!(ifaces.len(), 1);
    assert_eq!(ifaces[0].mac_address, "52:54:00:11:22:33");
    assert_eq!(ifaces[0].network, "network");
    assert_eq!(ifaces[0].bridge, "default");
    assert!(ifaces[0].is_active);
    let none_active = interfaces_from_rows(&rows, &Vec::new());
    assert!(!none_active[0].is_active);
}

#[test]
fn fleet_macs_are_collected_from_every_listing() {
    let a = "h\nh\n vnet0 network default virtio 52:54:00:00:00:01\n".to_string();
    let b = "h\nh\n vnet0 network default virtio 52:54:00:00:00:02\n vnet1 network lab virtio 52:54:00:00:00:03\n".to_string();
    let macs = collect_all_macs(&vec![a, b]);
    assert_eq!(
        macs,
        strings(&["52:54:00:00:00:01", "52:54:00:00:00:02", "52:54:00:00:00:03"])
    );
}

#[test]
fn available_networks_take_recorded_bridge_or_default() {
    let rows = vec![("default".to_string(), true), ("lab".to_string(), false)];
    let bridges = vec![("default".to_string(), Some("virbr9".to_string()))];
    let nets = available_networks_from(&rows, &bridges);
    assert_eq!(nets.len(), 2);
    assert_eq!(nets[0].network, "default");
    assert_eq!(nets[0].bridge, "virbr9");
    assert!(nets[0].is_active);
    assert_eq!(nets[1].bridge, "virbr0");
    assert!(!nets[1].is_active);
    assert_eq!(nets[1].mac_address, "");
}
