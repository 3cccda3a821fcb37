use vstd::prelude::*;
use vstd::string::*;
use crate::mac::{is_generated_mac, generate_mac_address};
use crate::text::{str_eq, spec_contains};
use crate::classify::spec_net_start_ok;

verus! {

/// The reconciler's working view of one interface: hardware address,
/// referenced network, bridge, and whether that network is active. It is
/// distinct from the descriptor's interface record.
#[derive(Debug, Clone)]
pub struct NetworkInterface {
    pub mac_address: String,
    pub network: String,
    pub bridge: String,
    pub is_active: bool,
}

pub struct NetworkInterfaceV {
    pub mac_address: Seq<char>,
    pub network: Seq<char>,
    pub bridge: Seq<char>,
    pub is_active: bool,
}

impl View for NetworkInterface {
    type V = NetworkInterfaceV;

    open spec fn view(&self) -> NetworkInterfaceV {
        NetworkInterfaceV {
            mac_address: self.mac_address@,
            network: self.network@,
            bridge: self.bridge@,
            is_active: self.is_active,
        }
    }
}

/// The kinds of network misconfiguration the reconciler detects.
#[derive(Debug, Clone, Copy, PartialEq, Eq, Structural)]
pub enum NetworkIssueType {
    DuplicateMacAddress,
    InactiveNetwork,
    InvalidNetworkReference,
    ConflictingConfiguration,
    MissingBridge,
}

impl NetworkIssueType {
    /// Human-readable name of the issue kind.
    pub fn label(&self) -> (r: String)
        ensures
            self is DuplicateMacAddress ==> r@ == "Duplicate MAC Address"@,
            self is InactiveNetwork ==> r@ == "Inactive Network"@,
            self is InvalidNetworkReference ==> r@ == "Invalid Network Reference"@,
            self is ConflictingConfiguration ==> r@ == "Conflicting Configuration"@,
            self is MissingBridge ==> r@ == "Missing Bridge"@,
    {
        match self {
            NetworkIssueType::DuplicateMacAddress => String::from_str("Duplicate MAC Address"),
            NetworkIssueType::InactiveNetwork => String::from_str("Inactive Network"),
            NetworkIssueType::InvalidNetworkReference => String::from_str(
                "Invalid Network Reference",
            ),
            NetworkIssueType::ConflictingConfiguration => String::from_str(
                "Conflicting Configuration",
            ),
            NetworkIssueType::MissingBridge => String::from_str("Missing Bridge"),
        }
    }
}

/// One detected misconfiguration: which interface, which kind of issue,
/// the configuration as observed, and the suggested correction. A
/// mismatch is a pure value; computing it mutates nothing.
#[derive(Debug, Clone)]
pub struct NetworkMismatch {
    pub interface_name: String,
    pub issue_type: NetworkIssueType,
    pub current_config: Option<NetworkInterface>,
    pub suggested_config: NetworkInterface,
}

pub struct NetworkMismatchV {
    pub interface_name: Seq<char>,
    pub issue_type: NetworkIssueType,
    pub current_config: Option<NetworkInterfaceV>,
    pub suggested_config: NetworkInterfaceV,
}

impl View for NetworkMismatch {
    type V = NetworkMismatchV;

    open spec fn view(&self) -> NetworkMismatchV {
        NetworkMismatchV {
            interface_name: self.interface_name@,
            issue_type: self.issue_type,
            current_config: match self.current_config {
                Some(c) => Some(c@),
                None => None,
            },
            suggested_config: self.suggested_config@,
        }
    }
}

/// A field-for-field copy of an interface record.
pub fn copy_interface(x: &NetworkInterface) -> (r: NetworkInterface)
    ensures
        r@ == x@,
{
    NetworkInterface {
        mac_address: x.mac_address.clone(),
        network: x.network.clone(),
        bridge: x.bridge.clone(),
        is_active: x.is_active,
    }
}

/// `base` followed by `suffix`.
pub fn concat_str(base: &str, suffix: &str) -> (r: String)
    ensures
        r@ == base@ + suffix@,
{
    let mut out = String::from_str(base);
    out.append(suffix);
    out
}

/// How often `mac` occurs in the fleet-wide address list.
pub open spec fn spec_mac_count(macs: Seq<Seq<char>>, mac: Seq<char>) -> int
    decreases macs.len(),
{
    if macs.len() == 0 {
        0
    } else {
        spec_mac_count(macs.drop_last(), mac) + if macs.last() == mac {
            1int
        } else {
            0int
        }
    }
}

proof fn lemma_mac_count_bounds(macs: Seq<Seq<char>>, mac: Seq<char>)
    ensures
        0 <= spec_mac_count(macs, mac) <= macs.len(),
    decreases macs.len(),
{
    if macs.len() > 0 {
        lemma_mac_count_bounds(macs.drop_last(), mac);
    }
}

/// Count the occurrences of one hardware address in the fleet-wide list.
pub fn count_mac_occurrences(macs: &Vec<String>, mac: &str) -> (r: usize)
    ensures
        r == spec_mac_count(macs@.map_values(|m: String| m@), mac@),
{
    let ghost all = macs@.map_values(|m: String| m@);
    let mut count: usize = 0;
    let mut i: usize = 0;
    proof {
        assert(all.take(0) =~= Seq::<Seq<char>>::empty());
        lemma_mac_count_bounds(all.take(0), mac@);
    }
    while i < macs.len()
        invariant
            all == macs@.map_values(|m: String| m@),
            0 <= i <= macs@.len(),
            count == spec_mac_count(all.take(i as int), mac@),
            0 <= count <= i,
        decreases macs@.len() - i,
    {
        proof {
            assert(all.take(i + 1).drop_last() =~= all.take(i as int));
            assert(all.take(i + 1).last() == all[i as int]);
            assert(all[i as int] == macs@[i as int]@);
        }
        if str_eq(macs[i].as_str(), mac) {
            count = count + 1;
        }
        i = i + 1;
    }
    proof {
        assert(all.take(macs@.len() as int) =~= all);
    }
    count
}

/// The first network record carrying the given name, if any.
pub open spec fn spec_find_network(
    nets: Seq<NetworkInterfaceV>,
    name: Seq<char>,
) -> Option<NetworkInterfaceV>
    decreases nets.len(),
{
    if nets.len() == 0 {
        None
    } else if nets[0].network == name {
        Some(nets[0])
    } else {
        spec_find_network(nets.drop_first(), name)
    }
}

/// Find the index of the first network record with the given name.
pub fn find_network(nets: &Vec<NetworkInterface>, name: &str) -> (r: Option<usize>)
    ensures
        r is Some <==> spec_find_network(nets@.map_values(|n: NetworkInterface| n@), name@)
            is Some,
        r matches Some(i) ==> i < nets@.len() && Some(nets@[i as int]@) == spec_find_network(
            nets@.map_values(|n: NetworkInterface| n@),
            name@,
        ),
{
    let ghost all = nets@.map_values(|n: NetworkInterface| n@);
    let mut i: usize = 0;
    proof {
        assert(all.skip(0) =~= all);
    }
    while i < nets.len()
        invariant
            all == nets@.map_values(|n: NetworkInterface| n@),
            0 <= i <= nets@.len(),
            spec_find_network(all, name@) == spec_find_network(all.skip(i as int), name@),
        decreases nets@.len() - i,
    {
        proof {
            assert(all.skip(i as int)[0] == all[i as int]);
            assert(all.skip(i as int).drop_first() =~= all.skip(i + 1));
            assert(all[i as int] == nets@[i as int]@);
        }
        if str_eq(nets[i].network.as_str(), name) {
            return Some(i);
        }
        i = i + 1;
    }
    proof {
        assert(all.skip(nets@.len() as int) =~= Seq::<NetworkInterfaceV>::empty());
    }
    None
}

/// The first active network record literally named `default`, if any.
pub open spec fn spec_find_default_active(
    nets: Seq<NetworkInterfaceV>,
) -> Option<NetworkInterfaceV>
    decreases nets.len(),
{
    if nets.len() == 0 {
        None
    } else if nets[0].network == "default"@ && nets[0].is_active {
        Some(nets[0])
    } else {
        spec_find_default_active(nets.drop_first())
    }
}

/// Find the index of the first active network literally named `default`.
pub fn find_default_active(nets: &Vec<NetworkInterface>) -> (r: Option<usize>)
    ensures
        r is Some <==> spec_find_default_active(nets@.map_values(|n: NetworkInterface| n@))
            is Some,
        r matches Some(i) ==> i < nets@.len() && Some(nets@[i as int]@)
            == spec_find_default_active(nets@.map_values(|n: NetworkInterface| n@)),
{
    let ghost all = nets@.map_values(|n: NetworkInterface| n@);
    let mut i: usize = 0;
    proof {
        assert(all.skip(0) =~= all);
    }
    while i < nets.len()
        invariant
            all == nets@.map_values(|n: NetworkInterface| n@),
            0 <= i <= nets@.len(),
            spec_find_default_active(all) == spec_find_default_active(all.skip(i as int)),
        decreases nets@.len() - i,
    {
        proof {
            assert(all.skip(i as int)[0] == all[i as int]);
            assert(all.skip(i as int).drop_first() =~= all.skip(i + 1));
            assert(all[i as int] == nets@[i as int]@);
        }
        if str_eq(nets[i].network.as_str(), "default") && nets[i].is_active {
            return Some(i);
        }
        i = i + 1;
    }
    proof {
        assert(all.skip(nets@.len() as int) =~= Seq::<NetworkInterfaceV>::empty());
    }
    None
}

/// Whether the list of strings holds the given one.
pub open spec fn spec_contains_string(v: Seq<Seq<char>>, s: Seq<char>) -> bool {
    exists|j: int| 0 <= j < v.len() && v[j] == s
}

pub fn contains_string(v: &Vec<String>, s: &str) -> (r: bool)
    ensures
        r == spec_contains_string(v@.map_values(|x: String| x@), s@),
{
    let ghost all = v@.map_values(|x: String| x@);
    let mut i: usize = 0;
    while i < v.len()
        invariant
            all == v@.map_values(|x: String| x@),
            0 <= i <= v@.len(),
            forall|j: int| 0 <= j < i ==> all[j] != s@,
        decreases v@.len() - i,
    {
        proof {
            assert(all[i as int] == v@[i as int]@);
        }
        if str_eq(v[i].as_str(), s) {
            assert(all[i as int] == s@);
            return true;
        }
        i = i + 1;
    }
    false
}

/// Whether another of the machine's own interfaces shares this one's
/// bridge while referencing a different network with a different active
/// flag — a conflicting configuration on one bridge.
pub open spec fn spec_has_conflict_partner(
    ifs: Seq<NetworkInterfaceV>,
    me: NetworkInterfaceV,
) -> bool {
    exists|j: int|
        0 <= j < ifs.len() && (#[trigger] ifs[j]).bridge == me.bridge && ifs[j].network
            != me.network && ifs[j].is_active != me.is_active
}

pub fn has_conflict_partner(ifs: &Vec<NetworkInterface>, me: &NetworkInterface) -> (r: bool)
    ensures
        r == spec_has_conflict_partner(ifs@.map_values(|f: NetworkInterface| f@), me@),
{
    let ghost all = ifs@.map_values(|f: NetworkInterface| f@);
    let mut i: usize = 0;
    while i < ifs.len()
        invariant
            all == ifs@.map_values(|f: NetworkInterface| f@),
            0 <= i <= ifs@.len(),
            forall|j: int|
                0 <= j < i ==> !((#[trigger] all[j]).bridge == me@.bridge && all[j].network
                    != me@.network && all[j].is_active != me@.is_active),
        decreases ifs@.len() - i,
    {
        proof {
            assert(all[i as int] == ifs@[i as int]@);
        }
        if str_eq(ifs[i].bridge.as_str(), me.bridge.as_str()) && !str_eq(
            ifs[i].network.as_str(),
            me.network.as_str(),
        ) && ifs[i].is_active != me.is_active {
            assert((all[i as int]).bridge == me@.bridge && all[i as int].network != me@.network
                && all[i as int].is_active != me@.is_active);
            return true;
        }
        i = i + 1;
    }
    false
}

/// The bridge suggested for an interface whose own bridge is missing:
/// the conventional default when the system has it, else the first
/// discovered bridge, else the conventional default as a last resort.
pub open spec fn spec_suggested_bridge(bridges: Seq<Seq<char>>) -> Seq<char> {
    if spec_contains_string(bridges, "virbr0"@) {
        "virbr0"@
    } else if bridges.len() > 0 {
        bridges[0]
    } else {
        "virbr0"@
    }
}

pub fn suggested_bridge(bridges: &Vec<String>) -> (r: String)
    ensures
        r@ == spec_suggested_bridge(bridges@.map_values(|b: String| b@)),
{
    if contains_string(bridges, "virbr0") {
        String::from_str("virbr0")
    } else if bridges.len() > 0 {
        proof {
            assert(bridges@.map_values(|b: String| b@)[0] == bridges@[0]@);
        }
        bridges[0].clone()
    } else {
        String::from_str("virbr0")
    }
}

/// The duplicate-address mismatch for one interface, up to the fresh
/// suggested address: the suggestion keeps network, bridge, and active
/// flag, and the address field of this record is a placeholder that the
/// detector replaces with a freshly generated one.
pub open spec fn spec_dup_mismatch(me: NetworkInterfaceV) -> NetworkMismatchV {
    NetworkMismatchV {
        interface_name: me.network + "-dup-mac"@,
        issue_type: NetworkIssueType::DuplicateMacAddress,
        current_config: Some(me),
        suggested_config: NetworkInterfaceV {
            mac_address: me.mac_address,
            network: me.network,
            bridge: me.bridge,
            is_active: me.is_active,
        },
    }
}

/// The inactive-network mismatch for one interface: same address,
/// network, and bridge, with the active flag raised.
pub open spec fn spec_inactive_mismatch(me: NetworkInterfaceV) -> NetworkMismatchV {
    NetworkMismatchV {
        interface_name: me.network,
        issue_type: NetworkIssueType::InactiveNetwork,
        current_config: Some(me),
        suggested_config: NetworkInterfaceV {
            mac_address: me.mac_address,
            network: me.network,
            bridge: me.bridge,
            is_active: true,
        },
    }
}

/// The invalid-reference mismatch for one interface: fall back to the
/// active network literally named `default` when one exists, else to a
/// placeholder carrying the interface's own address and the synthetic
/// default bridge, explicitly flagged inactive because the fallback is
/// not yet known-good.
pub open spec fn spec_invalid_mismatch(
    me: NetworkInterfaceV,
    nets: Seq<NetworkInterfaceV>,
) -> NetworkMismatchV {
    NetworkMismatchV {
        interface_name: me.network,
        issue_type: NetworkIssueType::InvalidNetworkReference,
        current_config: Some(me),
        suggested_config: match spec_find_default_active(nets) {
            Some(d) => d,
            None => NetworkInterfaceV {
                mac_address: me.mac_address,
                network: "default"@,
                bridge: "virbr0"@,
                is_active: false,
            },
        },
    }
}

/// The per-interface issues of the first detection pass: a duplicate-
/// address mismatch when the interface's address occurs more than once
/// fleet-wide, then either an inactive-network mismatch (the referenced
/// network exists but is not active) or an invalid-reference mismatch
/// (it does not exist at all).
pub open spec fn spec_phase1_issues(
    me: NetworkInterfaceV,
    nets: Seq<NetworkInterfaceV>,
    macs: Seq<Seq<char>>,
) -> Seq<NetworkMismatchV> {
    (if spec_mac_count(macs, me.mac_address) > 1 {
        seq![spec_dup_mismatch(me)]
    } else {
        Seq::empty()
    }) + (match spec_find_network(nets, me.network) {
        Some(n) => if !n.is_active {
            seq![spec_inactive_mismatch(me)]
        } else {
            Seq::empty()
        },
        None => seq![spec_invalid_mismatch(me, nets)],
    })
}

/// The missing-bridge mismatch for one interface.
pub open spec fn spec_missing_bridge_mismatch(
    me: NetworkInterfaceV,
    bridges: Seq<Seq<char>>,
) -> NetworkMismatchV {
    NetworkMismatchV {
        interface_name: me.bridge + "-missing-bridge"@,
        issue_type: NetworkIssueType::MissingBridge,
        current_config: Some(me),
        suggested_config: NetworkInterfaceV {
            mac_address: me.mac_address,
            network: me.network,
            bridge: spec_suggested_bridge(bridges),
            is_active: true,
        },
    }
}

/// The conflicting-configuration mismatch for an interface whose bridge
/// is shared with a differently configured interface, preferring the
/// active state.
pub open spec fn spec_conflict_mismatch(me: NetworkInterfaceV) -> NetworkMismatchV {
    NetworkMismatchV {
        interface_name: me.bridge + "-config-conflict"@,
        issue_type: NetworkIssueType::ConflictingConfiguration,
        current_config: Some(me),
        suggested_config: NetworkInterfaceV {
            mac_address: me.mac_address,
            network: me.network,
            bridge: me.bridge,
            is_active: true,
        },
    }
}

/// The mismatch for an interface whose bridge differs from what the
/// network definition records: suggest the definition's own bridge and
/// active flag.
pub open spec fn spec_bridge_definition_mismatch(
    me: NetworkInterfaceV,
    n: NetworkInterfaceV,
) -> NetworkMismatchV {
    NetworkMismatchV {
        interface_name: me.network + "-bridge-mismatch"@,
        issue_type: NetworkIssueType::ConflictingConfiguration,
        current_config: Some(me),
        suggested_config: NetworkInterfaceV {
            mac_address: me.mac_address,
            network: me.network,
            bridge: n.bridge,
            is_active: n.is_active,
        },
    }
}

/// The per-interface issues of the second detection pass: a missing
/// bridge, a conflicting configuration among the machine's own
/// interfaces (reported once per interface), and a bridge differing
/// from the network definition's record.
pub open spec fn spec_phase2_issues(
    me: NetworkInterfaceV,
    allifs: Seq<NetworkInterfaceV>,
    nets: Seq<NetworkInterfaceV>,
    bridges: Seq<Seq<char>>,
) -> Seq<NetworkMismatchV> {
    (if !spec_contains_string(bridges, me.bridge) {
        seq![spec_missing_bridge_mismatch(me, bridges)]
    } else {
        Seq::empty()
    }) + (if spec_has_conflict_partner(allifs, me) {
        seq![spec_conflict_mismatch(me)]
    } else {
        Seq::empty()
    }) + (match spec_find_network(nets, me.network) {
        Some(n) => if n.bridge != me.bridge {
            seq![spec_bridge_definition_mismatch(me, n)]
        } else {
            Seq::empty()
        },
        None => Seq::empty(),
    })
}

pub open spec fn spec_phase1_all(
    ifs: Seq<NetworkInterfaceV>,
    nets: Seq<NetworkInterfaceV>,
    macs: Seq<Seq<char>>,
) -> Seq<NetworkMismatchV>
    decreases ifs.len(),
{
    if ifs.len() == 0 {
        Seq::empty()
    } else {
        spec_phase1_all(ifs.drop_last(), nets, macs) + spec_phase1_issues(ifs.last(), nets, macs)
    }
}

pub open spec fn spec_phase2_all(
    ifs: Seq<NetworkInterfaceV>,
    allifs: Seq<NetworkInterfaceV>,
    nets: Seq<NetworkInterfaceV>,
    bridges: Seq<Seq<char>>,
) -> Seq<NetworkMismatchV>
    decreases ifs.len(),
{
    if ifs.len() == 0 {
        Seq::empty()
    } else {
        spec_phase2_all(ifs.drop_last(), allifs, nets, bridges) + spec_phase2_issues(
            ifs.last(),
            allifs,
            nets,
            bridges,
        )
    }
}

/// Everything detection reports for one machine, in emission order: the
/// first pass over every interface, then the bridge-and-conflict pass.
pub open spec fn spec_detect(
    ifs: Seq<NetworkInterfaceV>,
    nets: Seq<NetworkInterfaceV>,
    macs: Seq<Seq<char>>,
    bridges: Seq<Seq<char>>,
) -> Seq<NetworkMismatchV> {
    spec_phase1_all(ifs, nets, macs) + spec_phase2_all(ifs, ifs, nets, bridges)
}

/// The detector's result agrees with the expected mismatch in every
/// field, except that the suggested address of a duplicate-address
/// mismatch is a freshly generated one rather than the placeholder.
pub open spec fn mismatch_matches(actual: NetworkMismatchV, expected: NetworkMismatchV) -> bool {
    &&& actual.interface_name == expected.interface_name
    &&& actual.issue_type == expected.issue_type
    &&& actual.current_config == expected.current_config
    &&& actual.suggested_config.network == expected.suggested_config.network
    &&& actual.suggested_config.bridge == expected.suggested_config.bridge
    &&& actual.suggested_config.is_active == expected.suggested_config.is_active
    &&& if expected.issue_type is DuplicateMacAddress {
        is_generated_mac(actual.suggested_config.mac_address)
    } else {
        actual.suggested_config.mac_address == expected.suggested_config.mac_address
    }
}

/// The first detection pass for one interface.
fn phase1_for(
    me: &NetworkInterface,
    nets: &Vec<NetworkInterface>,
    macs: &Vec<String>,
) -> (r: Vec<NetworkMismatch>)
    ensures
        r@.len() == spec_phase1_issues(
            me@,
            nets@.map_values(|n: NetworkInterface| n@),
            macs@.map_values(|m: String| m@),
        ).len(),
        forall|k: int|
            0 <= k < r@.len() ==> mismatch_matches(
                #[trigger] r@[k]@,
                spec_phase1_issues(
                    me@,
                    nets@.map_values(|n: NetworkInterface| n@),
                    macs@.map_values(|m: String| m@),
                )[k],
            ),
{
    let ghost netsv = nets@.map_values(|n: NetworkInterface| n@);
    let ghost macsv = macs@.map_values(|m: String| m@);
    let ghost expected = spec_phase1_issues(me@, netsv, macsv);
    let mut out: Vec<NetworkMismatch> = Vec::new();
    let count = count_mac_occurrences(macs, me.mac_address.as_str());
    if count > 1 {
        let m = NetworkMismatch {
            interface_name: concat_str(me.network.as_str(), "-dup-mac"),
            issue_type: NetworkIssueType::DuplicateMacAddress,
            current_config: Some(copy_interface(me)),
            suggested_config: NetworkInterface {
                mac_address: generate_mac_address(),
                network: me.network.clone(),
                bridge: me.bridge.clone(),
                is_active: me.is_active,
            },
        };
        proof {
            assert(expected[0] == spec_dup_mismatch(me@));
            assert(mismatch_matches(m@, expected[0]));
        }
        out.push(m);
    }
    let ghost dups: int = if spec_mac_count(macsv, me@.mac_address) > 1 {
        1
    } else {
        0
    };
    match find_network(nets, me.network.as_str()) {
        Some(i) => {
            if !nets[i].is_active {
                let m = NetworkMismatch {
                    interface_name: me.network.clone(),
                    issue_type: NetworkIssueType::InactiveNetwork,
                    current_config: Some(copy_interface(me)),
                    suggested_config: NetworkInterface {
                        mac_address: me.mac_address.clone(),
                        network: me.network.clone(),
                        bridge: me.bridge.clone(),
                        is_active: true,
                    },
                };
                proof {
                    assert(expected[dups] == spec_inactive_mismatch(me@));
                    assert(mismatch_matches(m@, expected[dups]));
                }
                out.push(m);
            }
        },
        None => {
            let suggested = match find_default_active(nets) {
                Some(j) => copy_interface(&nets[j]),
                None => NetworkInterface {
                    mac_address: me.mac_address.clone(),
                    network: String::from_str("default"),
                    bridge: String::from_str("virbr0"),
                    is_active: false,
                },
            };
            let m = NetworkMismatch {
                interface_name: me.network.clone(),
                issue_type: NetworkIssueType::InvalidNetworkReference,
                current_config: Some(copy_interface(me)),
                suggested_config: suggested,
            };
            proof {
                assert(expected[dups] == spec_invalid_mismatch(me@, netsv));
                assert(mismatch_matches(m@, expected[dups]));
            }
            out.push(m);
        },
    }
    out
}

/// The second detection pass for one interface: bridge presence, bridge
/// sharing conflicts, and bridge-versus-definition conflicts.
fn phase2_for(
    me: &NetworkInterface,
    allifs: &Vec<NetworkInterface>,
    nets: &Vec<NetworkInterface>,
    bridges: &Vec<String>,
) -> (r: Vec<NetworkMismatch>)
    ensures
        r@.map_values(|m: NetworkMismatch| m@) == spec_phase2_issues(
            me@,
            allifs@.map_values(|f: NetworkInterface| f@),
            nets@.map_values(|n: NetworkInterface| n@),
            bridges@.map_values(|b: String| b@),
        ),
{
    let ghost ifsv = allifs@.map_values(|f: NetworkInterface| f@);
    let ghost netsv = nets@.map_values(|n: NetworkInterface| n@);
    let ghost bridgesv = bridges@.map_values(|b: String| b@);
    let ghost expected = spec_phase2_issues(me@, ifsv, netsv, bridgesv);
    let mut out: Vec<NetworkMismatch> = Vec::new();
    if !contains_string(bridges, me.bridge.as_str()) {
        let m = NetworkMismatch {
            interface_name: concat_str(me.bridge.as_str(), "-missing-bridge"),
            issue_type: NetworkIssueType::MissingBridge,
            current_config: Some(copy_interface(me)),
            suggested_config: NetworkInterface {
                mac_address: me.mac_address.clone(),
                network: me.network.clone(),
                bridge: suggested_bridge(bridges),
                is_active: true,
            },
        };
        proof {
            assert(m@ == spec_missing_bridge_mismatch(me@, bridgesv));
        }
        out.push(m);
    }
    if has_conflict_partner(allifs, me) {
        let m = NetworkMismatch {
            interface_name: concat_str(me.bridge.as_str(), "-config-conflict"),
            issue_type: NetworkIssueType::ConflictingConfiguration,
            current_config: Some(copy_interface(me)),
            suggested_config: NetworkInterface {
                mac_address: me.mac_address.clone(),
                network: me.network.clone(),
                bridge: me.bridge.clone(),
                is_active: true,
            },
        };
        proof {
            assert(m@ == spec_conflict_mismatch(me@));
        }
        out.push(m);
    }
    match find_network(nets, me.network.as_str()) {
        Some(i) => {
            if !str_eq(nets[i].bridge.as_str(), me.bridge.as_str()) {
                let m = NetworkMismatch {
                    interface_name: concat_str(me.network.as_str(), "-bridge-mismatch"),
                    issue_type: NetworkIssueType::ConflictingConfiguration,
                    current_config: Some(copy_interface(me)),
                    suggested_config: NetworkInterface {
                        mac_address: me.mac_address.clone(),
                        network: me.network.clone(),
                        bridge: nets[i].bridge.clone(),
                        is_active: nets[i].is_active,
                    },
                };
                proof {
                    assert(m@ == spec_bridge_definition_mismatch(
                        me@,
                        spec_find_network(netsv, me@.network)->0,
                    ));
                }
                out.push(m);
            }
        },
        None => {},
    }
    proof {
        assert(out@.map_values(|m: NetworkMismatch| m@) =~= expected);
    }
    out
}

/// Detect every network misconfiguration of one machine from its
/// interfaces, the fleet-wide network list, the fleet-wide list of
/// hardware addresses in use, and the bridges discovered on the system.
///
/// Detection is pure: it reads its four inputs and mutates no fleet
/// state. Every reported mismatch is pinned down exactly, except that
/// the suggested replacement for a duplicated hardware address is
/// freshly generated, in the locally-administered range reserved for
/// this system.
pub fn detect_network_mismatches(
    vm_interfaces: &Vec<NetworkInterface>,
    available_networks: &Vec<NetworkInterface>,
    all_mac_addresses: &Vec<String>,
    system_bridges: &Vec<String>,
) -> (r: Vec<NetworkMismatch>)
    ensures
        r@.len() == spec_detect(
            vm_interfaces@.map_values(|f: NetworkInterface| f@),
            available_networks@.map_values(|n: NetworkInterface| n@),
            all_mac_addresses@.map_values(|m: String| m@),
            system_bridges@.map_values(|b: String| b@),
        ).len(),
        forall|k: int|
            0 <= k < r@.len() ==> mismatch_matches(
                #[trigger] r@[k]@,
                spec_detect(
                    vm_interfaces@.map_values(|f: NetworkInterface| f@),
                    available_networks@.map_values(|n: NetworkInterface| n@),
                    all_mac_addresses@.map_values(|m: String| m@),
                    system_bridges@.map_values(|b: String| b@),
                )[k],
            ),
{
    let ghost ifsv = vm_interfaces@.map_values(|f: NetworkInterface| f@);
    let ghost netsv = available_networks@.map_values(|n: NetworkInterface| n@);
    let ghost macsv = all_mac_addresses@.map_values(|m: String| m@);
    let ghost bridgesv = system_bridges@.map_values(|b: String| b@);
    let mut out: Vec<NetworkMismatch> = Vec::new();
    let mut i: usize = 0;
    proof {
        assert(ifsv.take(0) =~= Seq::<NetworkInterfaceV>::empty());
    }
    while i < vm_interfaces.len()
        invariant
            ifsv == vm_interfaces@.map_values(|f: NetworkInterface| f@),
            netsv == available_networks@.map_values(|n: NetworkInterface| n@),
            macsv == all_mac_addresses@.map_values(|m: String| m@),
            0 <= i <= vm_interfaces@.len(),
            out@.len() == spec_phase1_all(ifsv.take(i as int), netsv, macsv).len(),
            forall|k: int|
                0 <= k < out@.len() ==> mismatch_matches(
                    #[trigger] out@[k]@,
                    spec_phase1_all(ifsv.take(i as int), netsv, macsv)[k],
                ),
        decreases vm_interfaces@.len() - i,
    {
        proof {
            assert(ifsv.take(i + 1).drop_last() =~= ifsv.take(i as int));
            assert(ifsv.take(i + 1).last() == ifsv[i as int]);
            assert(ifsv[i as int] == vm_interfaces@[i as int]@);
        }
        let mut chunk = phase1_for(&vm_interfaces[i], available_networks, all_mac_addresses);
        let ghost old_out = out@;
        let ghost chunkv = chunk@;
        out.append(&mut chunk);
        proof {
            let prev = spec_phase1_all(ifsv.take(i as int), netsv, macsv);
            let cur = spec_phase1_all(ifsv.take(i + 1), netsv, macsv);
            let piece = spec_phase1_issues(ifsv[i as int], netsv, macsv);
            assert(cur == prev + piece);
            assert(out@.len() == cur.len());
            assert forall|k: int| 0 <= k < out@.len() implies mismatch_matches(
                #[trigger] out@[k]@,
                cur[k],
            ) by {
                if k < old_out.len() {
                    assert(out@[k] == old_out[k]);
                    assert(cur[k] == prev[k]);
                } else {
                    assert(out@[k] == chunkv[k - old_out.len()]);
                    assert(cur[k] == piece[k - old_out.len()]);
                }
            }
        }
        i = i + 1;
    }
    proof {
        assert(ifsv.take(vm_interfaces@.len() as int) =~= ifsv);
    }
    let ghost base = spec_phase1_all(ifsv, netsv, macsv);
    let mut j: usize = 0;
    proof {
        assert(ifsv.take(0) =~= Seq::<NetworkInterfaceV>::empty());
    }
    while j < vm_interfaces.len()
        invariant
            ifsv == vm_interfaces@.map_values(|f: NetworkInterface| f@),
            netsv == available_networks@.map_values(|n: NetworkInterface| n@),
            bridgesv == system_bridges@.map_values(|b: String| b@),
            base == spec_phase1_all(ifsv, netsv, macsv),
            macsv == all_mac_addresses@.map_values(|m: String| m@),
            0 <= j <= vm_interfaces@.len(),
            out@.len() == base.len() + spec_phase2_all(
                ifsv.take(j as int),
                ifsv,
                netsv,
                bridgesv,
            ).len(),
            forall|k: int|
                0 <= k < base.len() ==> mismatch_matches(#[trigger] out@[k]@, base[k]),
            forall|k: int|
                base.len() <= k < out@.len() ==> mismatch_matches(
                    #[trigger] out@[k]@,
                    spec_phase2_all(ifsv.take(j as int), ifsv, netsv, bridgesv)[k - base.len()],
                ),
        decreases vm_interfaces@.len() - j,
    {
        proof {
            assert(ifsv.take(j + 1).drop_last() =~= ifsv.take(j as int));
            assert(ifsv.take(j + 1).last() == ifsv[j as int]);
            assert(ifsv[j as int] == vm_interfaces@[j as int]@);
        }
        let mut chunk = phase2_for(
            &vm_interfaces[j],
            vm_interfaces,
            available_networks,
            system_bridges,
        );
        let ghost old_out = out@;
        let ghost chunkv = chunk@;
        out.append(&mut chunk);
        proof {
            let prev = spec_phase2_all(ifsv.take(j as int), ifsv, netsv, bridgesv);
            let cur = spec_phase2_all(ifsv.take(j + 1), ifsv, netsv, bridgesv);
            let piece = spec_phase2_issues(ifsv[j as int], ifsv, netsv, bridgesv);
            assert(cur == prev + piece);
            assert(chunkv.map_values(|m: NetworkMismatch| m@) == piece);
            assert(out@.len() == base.len() + cur.len());
            assert forall|k: int| base.len() <= k < out@.len() implies mismatch_matches(
                #[trigger] out@[k]@,
                cur[k - base.len()],
            ) by {
                if k < old_out.len() {
                    assert(out@[k] == old_out[k]);
                    assert(cur[k - base.len()] == prev[k - base.len()]);
                } else {
                    assert(out@[k] == chunkv[k - old_out.len()]);
                    assert(cur[k - base.len()] == piece[k - old_out.len()]);
                    assert(chunkv[k - old_out.len()]@ == piece[k - old_out.len()]);
                }
            }
            assert(forall|k: int|
                0 <= k < base.len() ==> mismatch_matches(#[trigger] out@[k]@, base[k]));
        }
        j = j + 1;
    }
    proof {
        assert(ifsv.take(vm_interfaces@.len() as int) =~= ifsv);
        let full = spec_detect(ifsv, netsv, macsv, bridgesv);
        assert(full == base + spec_phase2_all(ifsv, ifsv, netsv, bridgesv));
        assert forall|k: int| 0 <= k < out@.len() implies mismatch_matches(
            #[trigger] out@[k]@,
            full[k],
        ) by {
            if k < base.len() {
                assert(full[k] == base[k]);
            } else {
                assert(full[k] == spec_phase2_all(ifsv, ifsv, netsv, bridgesv)[k - base.len()]);
            }
        }
    }
    out
}

/// How many reported mismatches carry the given issue kind.
pub open spec fn count_issue(ms: Seq<NetworkMismatchV>, t: NetworkIssueType) -> int
    decreases ms.len(),
{
    if ms.len() == 0 {
        0
    } else {
        count_issue(ms.drop_last(), t) + if ms.last().issue_type == t {
            1int
        } else {
            0int
        }
    }
}

pub proof fn lemma_count_issue_concat(a: Seq<NetworkMismatchV>, b: Seq<NetworkMismatchV>, t: NetworkIssueType)
    ensures
        count_issue(a + b, t) == count_issue(a, t) + count_issue(b, t),
    decreases b.len(),
{
    if b.len() == 0 {
        assert(a + b =~= a);
    } else {
        assert((a + b).drop_last() =~= a + b.drop_last());
        assert((a + b).last() == b.last());
        lemma_count_issue_concat(a, b.drop_last(), t);
    }
}

proof fn lemma_count_issue_singleton(m: NetworkMismatchV, t: NetworkIssueType)
    ensures
        count_issue(seq![m], t) == if m.issue_type == t {
            1int
        } else {
            0int
        },
{
    reveal_with_fuel(count_issue, 2);
    assert(seq![m].drop_last() =~= Seq::<NetworkMismatchV>::empty());
    assert(seq![m].last() == m);
}

/// The first pass reports exactly one duplicate-address mismatch for an
/// interface whose address occurs more than once fleet-wide, and none
/// otherwise.
pub proof fn lemma_phase1_duplicate(
    me: NetworkInterfaceV,
    nets: Seq<NetworkInterfaceV>,
    macs: Seq<Seq<char>>,
)
    ensures
        count_issue(spec_phase1_issues(me, nets, macs), NetworkIssueType::DuplicateMacAddress)
            == if spec_mac_count(macs, me.mac_address) > 1 {
            1int
        } else {
            0int
        },
        spec_mac_count(macs, me.mac_address) > 1 ==> spec_phase1_issues(me, nets, macs)[0]
            == spec_dup_mismatch(me),
{
    let dup: Seq<NetworkMismatchV> = if spec_mac_count(macs, me.mac_address) > 1 {
        seq![spec_dup_mismatch(me)]
    } else {
        Seq::empty()
    };
    let rest: Seq<NetworkMismatchV> = match spec_find_network(nets, me.network) {
        Some(n) => if !n.is_active {
            seq![spec_inactive_mismatch(me)]
        } else {
            Seq::empty()
        },
        None => seq![spec_invalid_mismatch(me, nets)],
    };
    lemma_count_issue_concat(dup, rest, NetworkIssueType::DuplicateMacAddress);
    if spec_mac_count(macs, me.mac_address) > 1 {
        lemma_count_issue_singleton(spec_dup_mismatch(me), NetworkIssueType::DuplicateMacAddress);
    }
    match spec_find_network(nets, me.network) {
        Some(n) => {
            if !n.is_active {
                lemma_count_issue_singleton(
                    spec_inactive_mismatch(me),
                    NetworkIssueType::DuplicateMacAddress,
                );
            }
        },
        None => {
            lemma_count_issue_singleton(
                spec_invalid_mismatch(me, nets),
                NetworkIssueType::DuplicateMacAddress,
            );
        },
    }
}

/// The first pass reports exactly one inactive-network mismatch for an
/// interface whose referenced network exists but is inactive, and none
/// otherwise; the suggestion keeps address, network, and bridge and
/// raises only the active flag.
pub proof fn lemma_phase1_inactive(
    me: NetworkInterfaceV,
    nets: Seq<NetworkInterfaceV>,
    macs: Seq<Seq<char>>,
)
    ensures
        count_issue(spec_phase1_issues(me, nets, macs), NetworkIssueType::InactiveNetwork)
            == if spec_find_network(nets, me.network) matches Some(n) && !n.is_active {
            1int
        } else {
            0int
        },
        (spec_find_network(nets, me.network) matches Some(n) && !n.is_active)
            ==> spec_phase1_issues(me, nets, macs).last() == spec_inactive_mismatch(me),
{
    let dup: Seq<NetworkMismatchV> = if spec_mac_count(macs, me.mac_address) > 1 {
        seq![spec_dup_mismatch(me)]
    } else {
        Seq::empty()
    };
    let rest: Seq<NetworkMismatchV> = match spec_find_network(nets, me.network) {
        Some(n) => if !n.is_active {
            seq![spec_inactive_mismatch(me)]
        } else {
            Seq::empty()
        },
        None => seq![spec_invalid_mismatch(me, nets)],
    };
    lemma_count_issue_concat(dup, rest, NetworkIssueType::InactiveNetwork);
    if spec_mac_count(macs, me.mac_address) > 1 {
        lemma_count_issue_singleton(spec_dup_mismatch(me), NetworkIssueType::InactiveNetwork);
    }
    match spec_find_network(nets, me.network) {
        Some(n) => {
            if !n.is_active {
                lemma_count_issue_singleton(
                    spec_inactive_mismatch(me),
                    NetworkIssueType::InactiveNetwork,
                );
                assert((dup + rest).last() == rest.last());
            }
        },
        None => {
            lemma_count_issue_singleton(
                spec_invalid_mismatch(me, nets),
                NetworkIssueType::InactiveNetwork,
            );
        },
    }
}

/// The second pass never reports duplicate-address or inactive-network
/// mismatches: its issues are missing bridges and configuration
/// conflicts.
pub proof fn lemma_phase2_kinds(
    me: NetworkInterfaceV,
    allifs: Seq<NetworkInterfaceV>,
    nets: Seq<NetworkInterfaceV>,
    bridges: Seq<Seq<char>>,
)
    ensures
        count_issue(
            spec_phase2_issues(me, allifs, nets, bridges),
            NetworkIssueType::DuplicateMacAddress,
        ) == 0,
        count_issue(
            spec_phase2_issues(me, allifs, nets, bridges),
            NetworkIssueType::InactiveNetwork,
        ) == 0,
{
    let missing: Seq<NetworkMismatchV> = if !spec_contains_string(bridges, me.bridge) {
        seq![spec_missing_bridge_mismatch(me, bridges)]
    } else {
        Seq::empty()
    };
    let conflict: Seq<NetworkMismatchV> = if spec_has_conflict_partner(allifs, me) {
        seq![spec_conflict_mismatch(me)]
    } else {
        Seq::empty()
    };
    let bmm: Seq<NetworkMismatchV> = match spec_find_network(nets, me.network) {
        Some(n) => if n.bridge != me.bridge {
            seq![spec_bridge_definition_mismatch(me, n)]
        } else {
            Seq::empty()
        },
        None => Seq::empty(),
    };
    lemma_count_issue_concat(missing, conflict, NetworkIssueType::DuplicateMacAddress);
    lemma_count_issue_concat(missing + conflict, bmm, NetworkIssueType::DuplicateMacAddress);
    lemma_count_issue_concat(missing, conflict, NetworkIssueType::InactiveNetwork);
    lemma_count_issue_concat(missing + conflict, bmm, NetworkIssueType::InactiveNetwork);
    if !spec_contains_string(bridges, me.bridge) {
        lemma_count_issue_singleton(
            spec_missing_bridge_mismatch(me, bridges),
            NetworkIssueType::DuplicateMacAddress,
        );
        lemma_count_issue_singleton(
            spec_missing_bridge_mismatch(me, bridges),
            NetworkIssueType::InactiveNetwork,
        );
    }
    if spec_has_conflict_partner(allifs, me) {
        lemma_count_issue_singleton(
            spec_conflict_mismatch(me),
            NetworkIssueType::DuplicateMacAddress,
        );
        lemma_count_issue_singleton(spec_conflict_mismatch(me), NetworkIssueType::InactiveNetwork);
    }
    match spec_find_network(nets, me.network) {
        Some(n) => {
            if n.bridge != me.bridge {
                lemma_count_issue_singleton(
                    spec_bridge_definition_mismatch(me, n),
                    NetworkIssueType::DuplicateMacAddress,
                );
                lemma_count_issue_singleton(
                    spec_bridge_definition_mismatch(me, n),
                    NetworkIssueType::InactiveNetwork,
                );
            }
        },
        None => {},
    }
}

/// How many interfaces carry a fleet-wide duplicated hardware address.
pub open spec fn count_dup_interfaces(ifs: Seq<NetworkInterfaceV>, macs: Seq<Seq<char>>) -> int
    decreases ifs.len(),
{
    if ifs.len() == 0 {
        0
    } else {
        count_dup_interfaces(ifs.drop_last(), macs) + if spec_mac_count(
            macs,
            ifs.last().mac_address,
        ) > 1 {
            1int
        } else {
            0int
        }
    }
}

/// How many interfaces reference a network that exists but is inactive.
pub open spec fn count_inactive_interfaces(
    ifs: Seq<NetworkInterfaceV>,
    nets: Seq<NetworkInterfaceV>,
) -> int
    decreases ifs.len(),
{
    if ifs.len() == 0 {
        0
    } else {
        count_inactive_interfaces(ifs.drop_last(), nets) + if spec_find_network(
            nets,
            ifs.last().network,
        ) matches Some(n) && !n.is_active {
            1int
        } else {
            0int
        }
    }
}

proof fn lemma_phase1_all_counts(
    ifs: Seq<NetworkInterfaceV>,
    nets: Seq<NetworkInterfaceV>,
    macs: Seq<Seq<char>>,
)
    ensures
        count_issue(spec_phase1_all(ifs, nets, macs), NetworkIssueType::DuplicateMacAddress)
            == count_dup_interfaces(ifs, macs),
        count_issue(spec_phase1_all(ifs, nets, macs), NetworkIssueType::InactiveNetwork)
            == count_inactive_interfaces(ifs, nets),
    decreases ifs.len(),
{
    if ifs.len() > 0 {
        lemma_phase1_all_counts(ifs.drop_last(), nets, macs);
        lemma_count_issue_concat(
            spec_phase1_all(ifs.drop_last(), nets, macs),
            spec_phase1_issues(ifs.last(), nets, macs),
            NetworkIssueType::DuplicateMacAddress,
        );
        lemma_count_issue_concat(
            spec_phase1_all(ifs.drop_last(), nets, macs),
            spec_phase1_issues(ifs.last(), nets, macs),
            NetworkIssueType::InactiveNetwork,
        );
        lemma_phase1_duplicate(ifs.last(), nets, macs);
        lemma_phase1_inactive(ifs.last(), nets, macs);
    }
}

proof fn lemma_phase2_all_counts(
    ifs: Seq<NetworkInterfaceV>,
    allifs: Seq<NetworkInterfaceV>,
    nets: Seq<NetworkInterfaceV>,
    bridges: Seq<Seq<char>>,
)
    ensures
        count_issue(
            spec_phase2_all(ifs, allifs, nets, bridges),
            NetworkIssueType::DuplicateMacAddress,
        ) == 0,
        count_issue(
            spec_phase2_all(ifs, allifs, nets, bridges),
            NetworkIssueType::InactiveNetwork,
        ) == 0,
    decreases ifs.len(),
{
    if ifs.len() > 0 {
        lemma_phase2_all_counts(ifs.drop_last(), allifs, nets, bridges);
        lemma_count_issue_concat(
            spec_phase2_all(ifs.drop_last(), allifs, nets, bridges),
            spec_phase2_issues(ifs.last(), allifs, nets, bridges),
            NetworkIssueType::DuplicateMacAddress,
        );
        lemma_count_issue_concat(
            spec_phase2_all(ifs.drop_last(), allifs, nets, bridges),
            spec_phase2_issues(ifs.last(), allifs, nets, bridges),
            NetworkIssueType::InactiveNetwork,
        );
        lemma_phase2_kinds(ifs.last(), allifs, nets, bridges);
    }
}

/// Duplicate-address detection reports exactly one mismatch of that kind
/// per interface whose hardware address occurs more than once in the
/// fleet-wide address list, and no other pass reports that kind.
pub proof fn lemma_detect_duplicate_count(
    ifs: Seq<NetworkInterfaceV>,
    nets: Seq<NetworkInterfaceV>,
    macs: Seq<Seq<char>>,
    bridges: Seq<Seq<char>>,
)
    ensures
        count_issue(spec_detect(ifs, nets, macs, bridges), NetworkIssueType::DuplicateMacAddress)
            == count_dup_interfaces(ifs, macs),
{
    lemma_phase1_all_counts(ifs, nets, macs);
    lemma_phase2_all_counts(ifs, ifs, nets, bridges);
    lemma_count_issue_concat(
        spec_phase1_all(ifs, nets, macs),
        spec_phase2_all(ifs, ifs, nets, bridges),
        NetworkIssueType::DuplicateMacAddress,
    );
}

/// Inactive-network detection reports exactly one mismatch of that kind
/// per interface whose referenced network exists with its active flag
/// down, and no other pass reports that kind.
pub proof fn lemma_detect_inactive_count(
    ifs: Seq<NetworkInterfaceV>,
    nets: Seq<NetworkInterfaceV>,
    macs: Seq<Seq<char>>,
    bridges: Seq<Seq<char>>,
)
    ensures
        count_issue(spec_detect(ifs, nets, macs, bridges), NetworkIssueType::InactiveNetwork)
            == count_inactive_interfaces(ifs, nets),
{
    lemma_phase1_all_counts(ifs, nets, macs);
    lemma_phase2_all_counts(ifs, ifs, nets, bridges);
    lemma_count_issue_concat(
        spec_phase1_all(ifs, nets, macs),
        spec_phase2_all(ifs, ifs, nets, bridges),
        NetworkIssueType::InactiveNetwork,
    );
}

/// What remediation applies to one mismatch. Only two kinds are safe to
/// apply automatically: rewriting the single scalar address field, and
/// starting a network. Everything touching document structure is left
/// to the operator, with the exact manual command named.
#[derive(Debug, Clone)]
pub enum FixAction {
    RewriteMacAddress(String),
    StartNetwork(String),
    ManualIntervention(String),
}

pub enum FixActionV {
    RewriteMacAddress(Seq<char>),
    StartNetwork(Seq<char>),
    ManualIntervention(Seq<char>),
}

impl View for FixAction {
    type V = FixActionV;

    open spec fn view(&self) -> FixActionV {
        match self {
            FixAction::RewriteMacAddress(m) => FixActionV::RewriteMacAddress(m@),
            FixAction::StartNetwork(n) => FixActionV::StartNetwork(n@),
            FixAction::ManualIntervention(m) => FixActionV::ManualIntervention(m@),
        }
    }
}

/// The remediation for one mismatch: rewrite the address for a
/// duplicate, start the suggested network for an inactive one, and for
/// the three structural kinds require manual intervention, naming the
/// exact command to run.
pub open spec fn spec_fix_action(m: NetworkMismatchV, vm_name: Seq<char>) -> FixActionV {
    match m.issue_type {
        NetworkIssueType::DuplicateMacAddress => FixActionV::RewriteMacAddress(
            m.suggested_config.mac_address,
        ),
        NetworkIssueType::InactiveNetwork => FixActionV::StartNetwork(m.suggested_config.network),
        _ => FixActionV::ManualIntervention(
            "Manual intervention required: virsh edit "@ + vm_name,
        ),
    }
}

/// Decide the remediation for one mismatch.
pub fn fix_action_for(m: &NetworkMismatch, vm_name: &str) -> (r: FixAction)
    ensures
        r@ == spec_fix_action(m@, vm_name@),
{
    match m.issue_type {
        NetworkIssueType::DuplicateMacAddress => FixAction::RewriteMacAddress(
            m.suggested_config.mac_address.clone(),
        ),
        NetworkIssueType::InactiveNetwork => FixAction::StartNetwork(
            m.suggested_config.network.clone(),
        ),
        _ => FixAction::ManualIntervention(
            concat_str("Manual intervention required: virsh edit ", vm_name),
        ),
    }
}

/// The remediation plan for a whole detection report, mismatch by
/// mismatch, in order.
pub fn auto_fix_plan(mismatches: &Vec<NetworkMismatch>, vm_name: &str) -> (r: Vec<FixAction>)
    ensures
        r@.len() == mismatches@.len(),
        forall|k: int|
            0 <= k < r@.len() ==> #[trigger] r@[k]@ == spec_fix_action(
                mismatches@[k]@,
                vm_name@,
            ),
{
    let mut out: Vec<FixAction> = Vec::new();
    let mut i: usize = 0;
    while i < mismatches.len()
        invariant
            0 <= i <= mismatches@.len(),
            out@.len() == i,
            forall|k: int|
                0 <= k < i ==> #[trigger] out@[k]@ == spec_fix_action(
                    mismatches@[k]@,
                    vm_name@,
                ),
        decreases mismatches@.len() - i,
    {
        let a = fix_action_for(&mismatches[i], vm_name);
        out.push(a);
        i = i + 1;
    }
    out
}

/// The report line for one applied remediation, or the manual-
/// intervention message itself.
pub fn fix_description(a: &FixAction) -> (r: String)
    ensures
        a@ matches FixActionV::RewriteMacAddress(m) ==> r@ == "Updated MAC address to "@ + m,
        a@ matches FixActionV::StartNetwork(n) ==> r@ == "Started network "@ + n,
        a@ matches FixActionV::ManualIntervention(m) ==> r@ == m,
{
    match a {
        FixAction::RewriteMacAddress(m) => concat_str("Updated MAC address to ", m.as_str()),
        FixAction::StartNetwork(n) => concat_str("Started network ", n.as_str()),
        FixAction::ManualIntervention(m) => m.clone(),
    }
}

/// Auto-fix of an inactive-network mismatch is idempotent: its
/// remediation is a start of the suggested network, and once that
/// network is active a repeated start reports it as already active on
/// stderr, which the classification layer counts as success — so
/// running the fix again is a no-op success, whatever the exit status.
pub proof fn lemma_inactive_fix_idempotent(
    m: NetworkMismatchV,
    vm_name: Seq<char>,
    exit_ok: bool,
    stderr: Seq<char>,
)
    requires
        m.issue_type is InactiveNetwork,
        spec_contains(stderr, "already active"@),
    ensures
        spec_fix_action(m, vm_name) == FixActionV::StartNetwork(m.suggested_config.network),
        spec_net_start_ok(exit_ok, stderr),
{
}

} // verus!
