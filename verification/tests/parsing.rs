use vmtools::model::DominfoData;
use vmtools::parse::{
    parse_list, parse_net_list, parse_domblklist, parse_domiflist, parse_dominfo, parse_domstate,
    parse_net_info_active, parse_net_info_bridge, count_processor_lines, mem_total_mb,
};
use vmtools::state::{VmState, state_from_detail, state_from_listing};

#[test]
fn list_parsing_skips_two_header_lines() {
    let text = " Id   Name   State\n----------------------\n 1    web-01 running\n 2    db-02  shut off\n";
    let rows = parse_list(text);
    assert_eq!(rows.len(), 2);
    assert_eq!(rows[0].0, "web-01");
    assert_eq!(rows[0].1, VmState::Running);
    assert_eq!(rows[1].0, "db-02");
    assert_eq!(rows[1].1, VmState::Stopped);
}

#[test]
fn list_parsing_ignores_header_content_entirely() {
    let a = "HEADER ONE\nHEADER TWO\n 1 alpha running\n";
    let b = "3 zulu paused\nanything at all here\n 1 alpha running\n";
    let ra = parse_list(a);
    let rb = parse_list(b);
    assert_eq!(ra.len(), rb.len());
    assert_eq!(ra[0].0, rb[0].0);
    assert_eq!(ra[0].1, rb[0].1);
}

#[test]
fn list_parsing_skips_short_rows() {
    let text = "h1\nh2\n\n----\n 1 only-two\n 2 good running\n";
    let rows = parse_list(text);
    assert_eq!(rows.len(), 1);
    assert_eq!(rows[0].0, "good");
}

#[test]
fn state_mapping_detail_is_total_and_stable() {
    assert_eq!(state_from_detail("running"), VmState::Running);
    assert_eq!(state_from_detail("shut off"), VmState::Stopped);
    assert_eq!(state_from_detail("paused"), VmState::Paused);
    assert_eq!(state_from_detail("suspended"), VmState::Suspended);
    assert_eq!(state_from_detail("in shutdown"), VmState::Unknown);
    assert_eq!(state_from_detail(""), VmState::Unknown);
    assert_eq!(state_from_detail("RUNNING"), VmState::Unknown);
}

#[test]
fn state_mapping_listing_context() {
    assert_eq!(state_from_listing("running"), VmState::Running);
    assert_eq!(state_from_listing("shut"), VmState::Stopped);
    assert_eq!(state_from_listing("paused"), VmState::Paused);
    assert_eq!(state_from_listing("suspended"), VmState::Suspended);
    // anything outside the fixed vocabulary degrades to Unknown,
    // the "in" of "in shutdown" included
    assert_eq!(state_from_listing("in"), VmState::Unknown);
    assert_eq!(state_from_listing(""), VmState::Unknown);
}

#[test]
fn dominfo_parsing_reads_the_four_keys() {
    let text = "Id:             1\nName:           web-01\nUUID:           0f81517c-5bd1-4d2a-a253-3bb4f1e67d4b\nOS Type:        hvm\nState:          running\nCPU(s):         2\nMax memory:     2097152 KiB\nUsed memory:    2097152 KiB\n";
    let d: DominfoData = parse_dominfo(text);
    assert_eq!(d.uuid, "0f81517c-5bd1-4d2a-a253-3bb4f1e67d4b");
    assert_eq!(d.state, VmState::Running);
    assert_eq!(d.memory, 2048);
    assert_eq!(d.cpus, 2);
}

#[test]
fn dominfo_ignores_unknown_keys_and_lines_without_colon() {
    let text = "garbage line\nWeird key:  whatever\nCPU(s): 4\n";
    let d = parse_dominfo(text);
    assert_eq!(d.cpus, 4);
    assert_eq!(d.memory, 0);
    assert_eq!(d.uuid, "");
    assert_eq!(d.state, VmState::Unknown);
}

#[test]
fn dominfo_unparsable_number_changes_nothing() {
    let text = "CPU(s): many\nMax memory: lots KiB\n";
    let d = parse_dominfo(text);
    assert_eq!(d.cpus, 0);
    assert_eq!(d.memory, 0);
}

#[test]
fn domstate_trims_and_classifies() {
    assert_eq!(parse_domstate("shut off\n"), VmState::Stopped);
    assert_eq!(parse_domstate("  running  \n"), VmState::Running);
    assert_eq!(parse_domstate("weird\n"), VmState::Unknown);
}

#[test]
fn net_list_parsing() {
    let text = " Name      State      Autostart   Persistent\n--------------------------------------------\n default   active     yes         yes\n lab       inactive   no          yes\n";
    let nets = parse_net_list(text);
    assert_eq!(nets.len(), 2);
    assert_eq!(nets[0].name, "default");
    assert!(nets[0].active);
    assert!(nets[0].autostart);
    assert_eq!(nets[0].bridge, "yes");
    assert_eq!(nets[1].name, "lab");
    assert!(!nets[1].active);
    assert!(!nets[1].autostart);
}

#[test]
fn net_list_three_column_row_gets_placeholder_bridge() {
    let text = "h\nh\n lab inactive no\n";
    let nets = parse_net_list(text);
    assert_eq!(nets.len(), 1);
    assert_eq!(nets[0].bridge, "-");
}

#[test]
fn domblklist_parsing() {
    let text = " Type   Device   Target   Source\n---------------------------------\n file   disk     vda      /var/lib/libvirt/images/web.qcow2\n";
    let disks = parse_domblklist(text);
    assert_eq!(disks.len(), 1);
    assert_eq!(disks[0].device, "vda");
    assert_eq!(disks[0].path, "/var/lib/libvirt/images/web.qcow2");
    assert_eq!(disks[0].size, 0);
    assert_eq!(disks[0].used, 0);
    assert_eq!(disks[0].format, "qcow2");
}

#[test]
fn domiflist_parsing_requires_five_columns() {
    let text = " Interface   Type      Source    Model    MAC\n-------------------------------------------------\n vnet0       network   default   virtio   52:54:00:11:22:33\n vnet1 network default virtio\n";
    let rows = parse_domiflist(text);
    assert_eq!(rows.len(), 1);
    assert_eq!(rows[0].interface, "vnet0");
    assert_eq!(rows[0].kind, "network");
    assert_eq!(rows[0].source, "default");
    assert_eq!(rows[0].model, "virtio");
    assert_eq!(rows[0].mac, "52:54:00:11:22:33");
}

#[test]
fn net_info_active_and_bridge() {
    let text = "Name:           default\nUUID:           x\nActive:         yes\nPersistent:     yes\nAutostart:      yes\nBridge:         virbr0\n";
    assert!(parse_net_info_active(text));
    assert_eq!(parse_net_info_bridge(text), Some("virbr0".to_string()));
    let inactive = "Active:         no\nBridge:         virbr1\n";
    assert!(!parse_net_info_active(inactive));
    assert_eq!(parse_net_info_bridge(inactive), Some("virbr1".to_string()));
    assert!(!parse_net_info_active("no such keys here"));
    assert_eq!(parse_net_info_bridge("nothing"), None);
}

#[test]
fn proc_parsing() {
    let cpuinfo = "processor\t: 0\nmodel name: x\nprocessor\t: 1\n";
    assert_eq!(count_processor_lines(cpuinfo), 2);
    let meminfo = "MemTotal:       16331712 kB\nMemFree:        1234 kB\n";
    assert_eq!(mem_total_mb(meminfo), 16331712 / 1024);
    assert_eq!(mem_total_mb("MemTotal: junk kB\n"), 0);
    assert_eq!(mem_total_mb("nothing"), 0);
}
