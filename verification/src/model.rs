use vstd::prelude::*;
use vstd::string::*;
use crate::state::VmState;

verus! {

/// One disk of a virtual machine. Sizes are best-effort: absence of
/// detail from the control plane yields zero, not an error.
#[derive(Debug, Clone)]
pub struct DiskInfo {
    pub device: String,
    pub path: String,
    pub size: u64,
    pub used: u64,
    pub format: String,
}

pub struct DiskInfoV {
    pub device: Seq<char>,
    pub path: Seq<char>,
    pub size: u64,
    pub used: u64,
    pub format: Seq<char>,
}

impl View for DiskInfo {
    type V = DiskInfoV;

    open spec fn view(&self) -> DiskInfoV {
        DiskInfoV {
            device: self.device@,
            path: self.path@,
            size: self.size,
            used: self.used,
            format: self.format@,
        }
    }
}

/// One network interface of a virtual machine, as the descriptor sees it.
#[derive(Debug, Clone)]
pub struct NetworkInfo {
    pub interface: String,
    pub network: String,
    pub mac_address: String,
    pub ip_address: Option<String>,
    pub bridge: String,
}

pub struct NetworkInfoV {
    pub interface: Seq<char>,
    pub network: Seq<char>,
    pub mac_address: Seq<char>,
    pub ip_address: Option<Seq<char>>,
    pub bridge: Seq<char>,
}

impl View for NetworkInfo {
    type V = NetworkInfoV;

    open spec fn view(&self) -> NetworkInfoV {
        NetworkInfoV {
            interface: self.interface@,
            network: self.network@,
            mac_address: self.mac_address@,
            ip_address: match self.ip_address {
                Some(ip) => Some(ip@),
                None => None,
            },
            bridge: self.bridge@,
        }
    }
}

/// A virtual network known to the control plane, as one row of the
/// network listing shows it.
#[derive(Debug, Clone)]
pub struct NetworkRecord {
    pub name: String,
    pub active: bool,
    pub bridge: String,
    pub autostart: bool,
}

pub struct NetworkRecordV {
    pub name: Seq<char>,
    pub active: bool,
    pub bridge: Seq<char>,
    pub autostart: bool,
}

impl View for NetworkRecord {
    type V = NetworkRecordV;

    open spec fn view(&self) -> NetworkRecordV {
        NetworkRecordV {
            name: self.name@,
            active: self.active,
            bridge: self.bridge@,
            autostart: self.autostart,
        }
    }
}

/// A snapshot of one virtual machine, reconstructed on every query from
/// live control-plane text and never cached. Utilization percentages are
/// whole percents; the control plane interface queried here does not
/// report them, so they stay `None`.
#[derive(Debug, Clone)]
pub struct VmInfo {
    pub name: String,
    pub uuid: String,
    pub state: VmState,
    pub memory: u64,
    pub cpus: u32,
    pub uptime: Option<u64>,
    pub cpu_usage: Option<u32>,
    pub memory_usage: Option<u32>,
    pub disk_usage: Vec<DiskInfo>,
    pub network_info: Vec<NetworkInfo>,
    pub created_at: u64,
    pub last_started: Option<u64>,
}

/// What a per-machine detail dump yields: the identity token, the state,
/// the maximum memory in megabytes, and the CPU count.
#[derive(Debug, Clone)]
pub struct DominfoData {
    pub uuid: String,
    pub state: VmState,
    pub memory: u64,
    pub cpus: u32,
}

pub struct DominfoDataV {
    pub uuid: Seq<char>,
    pub state: VmState,
    pub memory: u64,
    pub cpus: u32,
}

impl View for DominfoData {
    type V = DominfoDataV;

    open spec fn view(&self) -> DominfoDataV {
        DominfoDataV { uuid: self.uuid@, state: self.state, memory: self.memory, cpus: self.cpus }
    }
}

/// One row of the interface listing, by fixed column position.
#[derive(Debug, Clone)]
pub struct IfaceRow {
    pub interface: String,
    pub kind: String,
    pub source: String,
    pub model: String,
    pub mac: String,
}

pub struct IfaceRowV {
    pub interface: Seq<char>,
    pub kind: Seq<char>,
    pub source: Seq<char>,
    pub model: Seq<char>,
    pub mac: Seq<char>,
}

impl View for IfaceRow {
    type V = IfaceRowV;

    open spec fn view(&self) -> IfaceRowV {
        IfaceRowV {
            interface: self.interface@,
            kind: self.kind@,
            source: self.source@,
            model: self.model@,
            mac: self.mac@,
        }
    }
}

/// The descriptor-side record of one interface-listing row: the
/// interface tag and the referenced network at their fixed columns, the
/// hardware address from the fifth, no address lease, and the
/// conventional default bridge, which the listing does not report.
pub fn netinfo_of_row(row: &IfaceRow) -> (r: NetworkInfo)
    ensures
        r.interface@ == row.interface@,
        r.network@ == row.source@,
        r.mac_address@ == row.mac@,
        r.ip_address is None,
        r.bridge@ == "virbr0"@,
{
    NetworkInfo {
        interface: row.interface.clone(),
        network: row.source.clone(),
        mac_address: row.mac.clone(),
        ip_address: None,
        bridge: String::from_str("virbr0"),
    }
}

/// Facts about the host machine.
#[derive(Debug, Clone)]
pub struct HostInfo {
    pub cpu_count: u32,
    pub total_memory: u64,
    pub architecture: String,
    pub os: String,
}

/// What the disk-image utility reports about one image.
#[derive(Debug, Clone)]
pub struct ImageInfo {
    pub format: String,
    pub virtual_size: u64,
    pub actual_size: u64,
    pub filename: String,
}

/// Build a machine snapshot from its parsed parts. Utilization is not
/// reported by the queried interface, the creation timestamp is unknown,
/// and both therefore take their documented defaults.
pub fn assemble_vm_info(
    name: &str,
    detail: DominfoData,
    disks: Vec<DiskInfo>,
    nets: Vec<NetworkInfo>,
    uptime: Option<u64>,
) -> (r: VmInfo)
    ensures
        r.name@ == name@,
        r.uuid@ == detail.uuid@,
        r.state == detail.state,
        r.memory == detail.memory,
        r.cpus == detail.cpus,
        r.uptime == uptime,
        r.cpu_usage is None,
        r.memory_usage is None,
        r.disk_usage == disks,
        r.network_info == nets,
        r.created_at == 0,
        r.last_started is None,
{
    VmInfo {
        name: String::from_str(name),
        uuid: detail.uuid,
        state: detail.state,
        memory: detail.memory,
        cpus: detail.cpus,
        uptime,
        cpu_usage: None,
        memory_usage: None,
        disk_usage: disks,
        network_info: nets,
        created_at: 0,
        last_started: None,
    }
}

/// The minimal snapshot used when the detail query for a listed machine
/// fails: name and state from the listing row, everything else empty.
pub fn fallback_vm_info(name: &str, state: VmState) -> (r: VmInfo)
    ensures
        r.name@ == name@,
        r.uuid@ == "unknown"@,
        r.state == state,
        r.memory == 0,
        r.cpus == 0,
        r.uptime is None,
        r.cpu_usage is None,
        r.memory_usage is None,
        r.disk_usage@.len() == 0,
        r.network_info@.len() == 0,
        r.created_at == 0,
        r.last_started is None,
{
    VmInfo {
        name: String::from_str(name),
        uuid: String::from_str("unknown"),
        state,
        memory: 0,
        cpus: 0,
        uptime: None,
        cpu_usage: None,
        memory_usage: None,
        disk_usage: Vec::new(),
        network_info: Vec::new(),
        created_at: 0,
        last_started: None,
    }
}

} // verus!
