use vmtools::config::Config;
use vmtools::error::VmError;
use vmtools::lifecycle::{
    active_network_names, plan_clone, plan_create, plan_delete, select_network,
    start_poll_decision, LibvirtClient, QemuMonitor, StartPoll, qemu_img_create_args,
    qemu_img_convert_args, qemu_img_info_args, qemu_img_resize_args, NO_ACTIVE_NETWORKS_MSG,
    START_POLL_ATTEMPTS,
};
use vmtools::model::{DiskInfo, NetworkRecord, VmInfo};
use vmtools::state::{VmState, VmOperation};

fn net(name: &str, active: bool) -> NetworkRecord {
    NetworkRecord {
        name: name.to_string(),
        active,
        bridge: "virbr0".to_string(),
        autostart: true,
    }
}

#[test]
fn create_demo_scenario() {
    // a fresh name, one active network named default
    let config = Config::default();
    let networks = vec![net("default", true)];
    let plan = plan_create(&config, "demo", 2048, 2, 20, None, None, false, &networks)
        .expect("create must succeed with an active default network");
    assert_eq!(plan.descriptor.memory_mb, 2048);
    assert_eq!(plan.descriptor.vcpus, 2);
    assert_eq!(plan.disk_size_gb, 20);
    assert_eq!(plan.disk_path, "/var/lib/libvirt/images/demo.qcow2");
    assert_eq!(plan.descriptor.disk_path, plan.disk_path);
    assert_eq!(plan.descriptor.name, "demo");
    assert_eq!(plan.descriptor.network, "default");
    assert!(plan.descriptor.mac_address.starts_with("52:54:00:"));
    assert_eq!(plan.descriptor.mac_address.len(), 17);
    assert_eq!(plan.descriptor.uuid.len(), 36);
    assert!(plan.descriptor.iso_path.is_none());
}

#[test]
fn create_with_no_active_network_names_the_remediation() {
    let config = Config::default();
    let networks = vec![net("default", false), net("lab", false)];
    let err = plan_create(&config, "demo", 2048, 2, 20, None, None, false, &networks)
        .expect_err("no active network must fail the create");
    match err {
        VmError::NetworkError(msg) => {
            assert!(msg.contains("virsh net-start"));
            assert_eq!(msg, NO_ACTIVE_NETWORKS_MSG);
        },
        other => panic!("expected a network error, got {:?}", other),
    }
}

#[test]
fn create_rejects_existing_name() {
    let config = Config::default();
    let networks = vec![net("default", true)];
    let err = plan_create(&config, "demo", 2048, 2, 20, None, None, true, &networks)
        .expect_err("an existing name must fail the create");
    assert_eq!(err, VmError::VmAlreadyExists("demo".to_string()));
}

#[test]
fn create_rejects_invalid_name_before_anything_else() {
    let config = Config::default();
    let networks = vec![net("default", true)];
    let err = plan_create(&config, "../etc", 2048, 2, 20, None, None, false, &networks)
        .expect_err("a traversal name must fail the create");
    assert!(matches!(err, VmError::SecurityError(_)));
}

#[test]
fn create_falls_back_to_first_active_network() {
    let config = Config::default();
    let networks = vec![net("default", false), net("lab", true), net("dmz", true)];
    let plan = plan_create(&config, "demo", 1024, 1, 10, None, None, false, &networks).unwrap();
    assert_eq!(plan.descriptor.network, "lab");
}

#[test]
fn create_with_template_uses_its_resources() {
    let config = Config::default();
    let networks = vec![net("default", true)];
    let plan = plan_create(&config, "win", 512, 1, 5, None, Some("windows"), false, &networks)
        .unwrap();
    assert_eq!(plan.descriptor.memory_mb, 4096);
    assert_eq!(plan.descriptor.vcpus, 2);
    assert_eq!(plan.disk_size_gb, 40);
    assert_eq!(plan.descriptor.os_type, "windows");
    let err = plan_create(&config, "win", 512, 1, 5, None, Some("nothere"), false, &networks)
        .expect_err("an unknown template must fail the create");
    assert_eq!(
        err,
        VmError::InvalidInput("Template 'nothere' not found".to_string())
    );
}

#[test]
fn create_keeps_install_media() {
    let config = Config::default();
    let networks = vec![net("default", true)];
    let plan = plan_create(
        &config,
        "demo",
        2048,
        2,
        20,
        Some("/var/lib/libvirt/images/iso/install.iso"),
        None,
        false,
        &networks,
    )
    .unwrap();
    assert_eq!(
        plan.descriptor.iso_path.as_deref(),
        Some("/var/lib/libvirt/images/iso/install.iso")
    );
}

fn source_vm() -> VmInfo {
    VmInfo {
        name: "src".to_string(),
        uuid: "0f81517c-5bd1-4d2a-a253-3bb4f1e67d4b".to_string(),
        state: VmState::Stopped,
        memory: 4096,
        cpus: 4,
        uptime: None,
        cpu_usage: None,
        memory_usage: None,
        disk_usage: vec![
            DiskInfo {
                device: "vda".to_string(),
                path: "/var/lib/libvirt/images/src.qcow2".to_string(),
                size: 0,
                used: 0,
                format: "qcow2".to_string(),
            },
        ],
        network_info: Vec::new(),
        created_at: 0,
        last_started: None,
    }
}

#[test]
fn clone_plans_copies_and_a_fresh_identity() {
    let config = Config::default();
    let networks = vec![net("default", true)];
    let src = source_vm();
    let plan = plan_clone(&config, &src, "copy", false, &networks).unwrap();
    assert_eq!(plan.copies.len(), 1);
    assert_eq!(plan.copies[0].0, "/var/lib/libvirt/images/src.qcow2");
    assert_eq!(plan.copies[0].1, "/var/lib/libvirt/images/copy.qcow2");
    assert_eq!(plan.descriptor.name, "copy");
    assert_eq!(plan.descriptor.memory_mb, 4096);
    assert_eq!(plan.descriptor.vcpus, 4);
    // the clone never carries the source's identity
    assert_ne!(plan.descriptor.uuid, src.uuid);
    assert_eq!(plan.descriptor.uuid.len(), 36);
    assert!(plan.descriptor.mac_address.starts_with("52:54:00:"));
    assert!(plan.descriptor.iso_path.is_none());
}

#[test]
fn clone_rejects_existing_target_and_missing_networks() {
    let config = Config::default();
    let src = source_vm();
    let err = plan_clone(&config, &src, "copy", true, &vec![net("default", true)])
        .expect_err("an existing target must fail the clone");
    assert_eq!(err, VmError::VmAlreadyExists("copy".to_string()));
    let err2 = plan_clone(&config, &src, "copy", false, &Vec::new())
        .expect_err("no active network must fail the clone");
    assert_eq!(
        err2,
        VmError::NetworkError("No active networks available for VM creation".to_string())
    );
}

#[test]
fn delete_plan_stops_running_machines_first() {
    let src = source_vm();
    let plan = plan_delete(VmState::Running, &src.disk_usage);
    assert!(plan.destroy_first);
    assert_eq!(plan.disk_paths, vec!["/var/lib/libvirt/images/src.qcow2".to_string()]);
    let plan2 = plan_delete(VmState::Stopped, &src.disk_usage);
    assert!(!plan2.destroy_first);
}

#[test]
fn start_polling_decisions() {
    assert_eq!(START_POLL_ATTEMPTS, 30);
    assert_eq!(
        start_poll_decision(VmState::Running, 7),
        StartPoll::Started
    );
    assert_eq!(
        start_poll_decision(VmState::Stopped, 7),
        StartPoll::StillWaiting
    );
    assert_eq!(
        start_poll_decision(VmState::Stopped, 0),
        StartPoll::MayStillBeStarting
    );
}

#[test]
fn actionability_predicate() {
    assert!(VmState::Stopped.is_actionable_for(VmOperation::Start));
    assert!(VmState::Suspended.is_actionable_for(VmOperation::Start));
    assert!(VmState::Unknown.is_actionable_for(VmOperation::Start));
    assert!(!VmState::Running.is_actionable_for(VmOperation::Start));
    assert!(VmState::Running.is_actionable_for(VmOperation::Shutdown));
    assert!(!VmState::Paused.is_actionable_for(VmOperation::Shutdown));
    assert!(VmState::Running.is_actionable_for(VmOperation::Destroy));
    assert!(VmState::Paused.is_actionable_for(VmOperation::Destroy));
    assert!(!VmState::Stopped.is_actionable_for(VmOperation::Destroy));
}

#[test]
fn network_selection_prefers_configured_default() {
    let active = vec!["lab".to_string(), "default".to_string()];
    let choice = select_network(&active, "default", "none available").unwrap();
    assert_eq!(choice, "default");
    let other = select_network(&vec!["lab".to_string()], "default", "none available").unwrap();
    assert_eq!(other, "lab");
    let err = select_network(&Vec::new(), "default", "none available").unwrap_err();
    assert_eq!(err, VmError::NetworkError("none available".to_string()));
}

#[test]
fn active_names_filter_the_listing() {
    let nets = vec![net("default", true), net("lab", false), net("dmz", true)];
    assert_eq!(
        active_network_names(&nets),
        vec!["default".to_string(), "dmz".to_string()]
    );
}

#[test]
fn control_plane_argument_lists() {
    let client = LibvirtClient::new("qemu:///system");
    assert_eq!(client.uri, "qemu:///system");
    assert_eq!(
        client.args_list(true),
        vec!["-c", "qemu:///system", "list", "--all"]
    );
    assert_eq!(client.args_list(false), vec!["-c", "qemu:///system", "list"]);
    assert_eq!(
        client.args_stop("web-01", true),
        vec!["-c", "qemu:///system", "destroy", "web-01"]
    );
    assert_eq!(
        client.args_stop("web-01", false),
        vec!["-c", "qemu:///system", "shutdown", "web-01"]
    );
    assert_eq!(
        client.command_args("dominfo", &vec!["web-01".to_string()]),
        vec!["-c", "qemu:///system", "dominfo", "web-01"]
    );
    let monitor = QemuMonitor::new("/run/qmp.sock");
    assert_eq!(monitor.socket_path, "/run/qmp.sock");
}

#[test]
fn image_utility_argument_lists() {
    assert_eq!(
        qemu_img_create_args("/tmp/a.qcow2", 20),
        vec!["create", "-f", "qcow2", "/tmp/a.qcow2", "20G"]
    );
    assert_eq!(
        qemu_img_convert_args("/a.qcow2", "/b.qcow2"),
        vec!["convert", "-f", "qcow2", "-O", "qcow2", "/a.qcow2", "/b.qcow2"]
    );
    assert_eq!(
        qemu_img_info_args("/a.qcow2"),
        vec!["info", "--output=json", "/a.qcow2"]
    );
    assert_eq!(
        qemu_img_resize_args("/a.qcow2", 40),
        vec!["resize", "/a.qcow2", "40G"]
    );
}

#[test]
fn running_filter_keeps_order_and_only_running() {
    let mut a = source_vm();
    a.name = "a".to_string();
    a.state = VmState::Running;
    let mut b = source_vm();
    b.name = "b".to_string();
    b.state = VmState::Stopped;
    let mut c = source_vm();
    c.name = "c".to_string();
    c.state = VmState::Running;
    let kept = vmtools::lifecycle::filter_running(vec![a, b, c]);
    let names: Vec<String> = kept.iter().map(|v| v.name.clone()).collect();
    assert_eq!(names, vec!["a".to_string(), "c".to_string()]);
}
