use vstd::prelude::*;
use vstd::string::*;
use crate::model::{IfaceRow, IfaceRowV};
use crate::parse::{spec_parse_domiflist, parse_domiflist};
use crate::reconcile::{
    NetworkInterface,
    NetworkInterfaceV,
    spec_contains_string,
    contains_string,
};
use crate::text::{
    spec_split,
    spec_tokens,
    spec_starts_with,
    split_char,
    tokenize,
    starts_with,
    str_eq,
};

verus! {

/// The bridge named by one line of the link-layer device listing: the
/// first token after the first colon, kept when it follows one of the
/// two bridge naming conventions.
pub open spec fn spec_bridge_link_row(line: Seq<char>) -> Seq<Seq<char>> {
    let p = spec_split(line, ':');
    if p.len() >= 2 {
        let t = spec_tokens(p[1]);
        if t.len() >= 1 && (spec_starts_with(t[0], "virbr"@) || spec_starts_with(t[0], "br-"@)) {
            seq![t[0]]
        } else {
            Seq::empty()
        }
    } else {
        Seq::empty()
    }
}

pub open spec fn spec_bridge_link_rows(lines: Seq<Seq<char>>) -> Seq<Seq<char>>
    decreases lines.len(),
{
    if lines.len() == 0 {
        Seq::empty()
    } else {
        spec_bridge_link_rows(lines.drop_last()) + spec_bridge_link_row(lines.last())
    }
}

pub open spec fn spec_parse_bridge_links(text: Seq<char>) -> Seq<Seq<char>> {
    spec_bridge_link_rows(spec_split(text, '\n'))
}

/// Bridges from the link-layer device listing, the first discovery
/// strategy.
pub fn parse_bridge_links(text: &str) -> (r: Vec<String>)
    ensures
        r@.map_values(|b: String| b@) == spec_parse_bridge_links(text@),
{
    let lines = split_char(text, '\n');
    let ghost all = spec_split(text@, '\n');
    let mut out: Vec<String> = Vec::new();
    let mut i: usize = 0;
    proof {
        assert(all.take(0) =~= Seq::<Seq<char>>::empty());
        assert(out@.map_values(|b: String| b@) =~= spec_bridge_link_rows(all.take(0)));
    }
    while i < lines.len()
        invariant
            lines@.map_values(|l: String| l@) == all,
            all == spec_split(text@, '\n'),
            0 <= i <= lines@.len(),
            out@.map_values(|b: String| b@) == spec_bridge_link_rows(all.take(i as int)),
        decreases lines@.len() - i,
    {
        proof {
            assert(lines@[i as int]@ == all[i as int]);
            assert(all.take(i + 1).drop_last() =~= all.take(i as int));
            assert(all.take(i + 1).last() == all[i as int]);
        }
        let pieces = split_char(lines[i].as_str(), ':');
        let mut pushed = false;
        if pieces.len() >= 2 {
            proof {
                assert(pieces@.map_values(|p: String| p@)[1] == spec_split(all[i as int], ':')[1]);
            }
            let toks = tokenize(pieces[1].as_str());
            if toks.len() >= 1 {
                proof {
                    assert(toks@.map_values(|t: String| t@)[0] == spec_tokens(
                        spec_split(all[i as int], ':')[1],
                    )[0]);
                }
                let name = &toks[0];
                if starts_with(name.as_str(), "virbr") || starts_with(name.as_str(), "br-") {
                    let owned = name.clone();
                    proof {
                        assert(spec_bridge_link_row(all[i as int]) =~= seq![owned@]);
                        assert(out@.push(owned).map_values(|b: String| b@) =~= out@.map_values(
                            |b: String| b@,
                        ).push(owned@));
                        assert(spec_bridge_link_rows(all.take(i as int)) + spec_bridge_link_row(
                            all[i as int],
                        ) =~= spec_bridge_link_rows(all.take(i as int)).push(owned@));
                    }
                    out.push(owned);
                    pushed = true;
                }
            }
        }
        if !pushed {
            proof {
                assert(spec_bridge_link_row(all[i as int]) =~= Seq::<Seq<char>>::empty());
                assert(spec_bridge_link_rows(all.take(i as int)) + spec_bridge_link_row(
                    all[i as int],
                ) =~= spec_bridge_link_rows(all.take(i as int)));
            }
        }
        i = i + 1;
    }
    proof {
        assert(all.take(lines@.len() as int) =~= all);
    }
    out
}

/// The bridge named by one line of the device-filesystem scan: the last
/// path component of every nonempty line.
pub open spec fn spec_bridge_path_row(line: Seq<char>) -> Seq<Seq<char>> {
    if line.len() > 0 {
        seq![spec_split(line, '/').last()]
    } else {
        Seq::empty()
    }
}

pub open spec fn spec_bridge_path_rows(lines: Seq<Seq<char>>) -> Seq<Seq<char>>
    decreases lines.len(),
{
    if lines.len() == 0 {
        Seq::empty()
    } else {
        spec_bridge_path_rows(lines.drop_last()) + spec_bridge_path_row(lines.last())
    }
}

pub open spec fn spec_parse_bridge_paths(text: Seq<char>) -> Seq<Seq<char>> {
    spec_bridge_path_rows(spec_split(text, '\n'))
}

/// Bridges from the device-filesystem scan, the second discovery
/// strategy.
pub fn parse_bridge_paths(text: &str) -> (r: Vec<String>)
    ensures
        r@.map_values(|b: String| b@) == spec_parse_bridge_paths(text@),
{
    let lines = split_char(text, '\n');
    let ghost all = spec_split(text@, '\n');
    let mut out: Vec<String> = Vec::new();
    let mut i: usize = 0;
    proof {
        assert(all.take(0) =~= Seq::<Seq<char>>::empty());
        assert(out@.map_values(|b: String| b@) =~= spec_bridge_path_rows(all.take(0)));
    }
    while i < lines.len()
        invariant
            lines@.map_values(|l: String| l@) == all,
            all == spec_split(text@, '\n'),
            0 <= i <= lines@.len(),
            out@.map_values(|b: String| b@) == spec_bridge_path_rows(all.take(i as int)),
        decreases lines@.len() - i,
    {
        proof {
            assert(lines@[i as int]@ == all[i as int]);
            assert(all.take(i + 1).drop_last() =~= all.take(i as int));
            assert(all.take(i + 1).last() == all[i as int]);
        }
        let line = lines[i].as_str();
        if line.unicode_len() > 0 {
            let pieces = split_char(line, '/');
            let owned = pieces[pieces.len() - 1].clone();
            proof {
                let pv = pieces@.map_values(|p: String| p@);
                assert(pv[pv.len() - 1] == spec_split(all[i as int], '/').last());
                assert(spec_bridge_path_row(all[i as int]) =~= seq![owned@]);
                assert(out@.push(owned).map_values(|b: String| b@) =~= out@.map_values(
                    |b: String| b@,
                ).push(owned@));
                assert(spec_bridge_path_rows(all.take(i as int)) + spec_bridge_path_row(
                    all[i as int],
                ) =~= spec_bridge_path_rows(all.take(i as int)).push(owned@));
            }
            out.push(owned);
        } else {
            proof {
                assert(spec_bridge_path_row(all[i as int]) =~= Seq::<Seq<char>>::empty());
                assert(spec_bridge_path_rows(all.take(i as int)) + spec_bridge_path_row(
                    all[i as int],
                ) =~= spec_bridge_path_rows(all.take(i as int)));
            }
        }
        i = i + 1;
    }
    proof {
        assert(all.take(lines@.len() as int) =~= all);
    }
    out
}

/// The bridges implied by the known network definitions, each kept
/// once, in first-seen order — the last discovery strategy.
pub open spec fn spec_dedup_bridges(nets: Seq<NetworkInterfaceV>) -> Seq<Seq<char>>
    decreases nets.len(),
{
    if nets.len() == 0 {
        Seq::empty()
    } else {
        let p = spec_dedup_bridges(nets.drop_last());
        if spec_contains_string(p, nets.last().bridge) {
            p
        } else {
            p.push(nets.last().bridge)
        }
    }
}

pub fn bridges_from_networks(nets: &Vec<NetworkInterface>) -> (r: Vec<String>)
    ensures
        r@.map_values(|b: String| b@) == spec_dedup_bridges(
            nets@.map_values(|n: NetworkInterface| n@),
        ),
{
    let ghost all = nets@.map_values(|n: NetworkInterface| n@);
    let mut out: Vec<String> = Vec::new();
    let mut i: usize = 0;
    proof {
        assert(all.take(0) =~= Seq::<NetworkInterfaceV>::empty());
        assert(out@.map_values(|b: String| b@) =~= spec_dedup_bridges(all.take(0)));
    }
    while i < nets.len()
        invariant
            all == nets@.map_values(|n: NetworkInterface| n@),
            0 <= i <= nets@.len(),
            out@.map_values(|b: String| b@) == spec_dedup_bridges(all.take(i as int)),
        decreases nets@.len() - i,
    {
        proof {
            assert(all.take(i + 1).drop_last() =~= all.take(i as int));
            assert(all.take(i + 1).last() == all[i as int]);
            assert(all[i as int] == nets@[i as int]@);
        }
        if !contains_string(&out, nets[i].bridge.as_str()) {
            let owned = nets[i].bridge.clone();
            proof {
                assert(out@.push(owned).map_values(|b: String| b@) =~= out@.map_values(
                    |b: String| b@,
                ).push(owned@));
            }
            out.push(owned);
        }
        i = i + 1;
    }
    proof {
        assert(all.take(nets@.len() as int) =~= all);
    }
    out
}

/// System bridge discovery over the three strategies, in priority
/// order: the link-layer device listing, then the device-filesystem
/// scan, and as a last resort the bridges implied by the network
/// definitions.
pub open spec fn spec_select_bridges(
    links_text: Seq<char>,
    paths_text: Seq<char>,
    nets: Seq<NetworkInterfaceV>,
) -> Seq<Seq<char>> {
    let m1 = spec_parse_bridge_links(links_text);
    if m1.len() > 0 {
        m1
    } else {
        let m2 = spec_parse_bridge_paths(paths_text);
        if m2.len() > 0 {
            m2
        } else {
            spec_dedup_bridges(nets)
        }
    }
}

pub fn select_system_bridges(
    links_text: &str,
    paths_text: &str,
    nets: &Vec<NetworkInterface>,
) -> (r: Vec<String>)
    ensures
        r@.map_values(|b: String| b@) == spec_select_bridges(
            links_text@,
            paths_text@,
            nets@.map_values(|n: NetworkInterface| n@),
        ),
{
    let m1 = parse_bridge_links(links_text);
    if m1.len() > 0 {
        return m1;
    }
    let m2 = parse_bridge_paths(paths_text);
    if m2.len() > 0 {
        return m2;
    }
    bridges_from_networks(nets)
}

/// The recorded active flag of a network, false when the network is not
/// in the list: the reconciler degrades missing activity data to
/// inactive rather than failing.
pub open spec fn spec_lookup_flag(pairs: Seq<(Seq<char>, bool)>, name: Seq<char>) -> bool
    decreases pairs.len(),
{
    if pairs.len() == 0 {
        false
    } else if pairs[0].0 == name {
        pairs[0].1
    } else {
        spec_lookup_flag(pairs.drop_first(), name)
    }
}

pub fn lookup_flag(pairs: &Vec<(String, bool)>, name: &str) -> (r: bool)
    ensures
        r == spec_lookup_flag(pairs@.map_values(|p: (String, bool)| (p.0@, p.1)), name@),
{
    let ghost all = pairs@.map_values(|p: (String, bool)| (p.0@, p.1));
    let mut i: usize = 0;
    proof {
        assert(all.skip(0) =~= all);
    }
    while i < pairs.len()
        invariant
            all == pairs@.map_values(|p: (String, bool)| (p.0@, p.1)),
            0 <= i <= pairs@.len(),
            spec_lookup_flag(all, name@) == spec_lookup_flag(all.skip(i as int), name@),
        decreases pairs@.len() - i,
    {
        proof {
            assert(all.skip(i as int)[0] == all[i as int]);
            assert(all.skip(i as int).drop_first() =~= all.skip(i + 1));
            assert(all[i as int] == (pairs@[i as int].0@, pairs@[i as int].1));
        }
        if str_eq(pairs[i].0.as_str(), name) {
            return pairs[i].1;
        }
        i = i + 1;
    }
    proof {
        assert(all.skip(pairs@.len() as int) =~= Seq::<(Seq<char>, bool)>::empty());
    }
    false
}

/// The reconciler's view of one interface-listing row: the hardware
/// address from the fifth column, the referenced network and bridge
/// from their fixed columns, and the active flag looked up in the
/// supplied per-network activity list.
pub open spec fn spec_iface_of_row(
    row: IfaceRowV,
    activity: Seq<(Seq<char>, bool)>,
) -> NetworkInterfaceV {
    NetworkInterfaceV {
        mac_address: row.mac,
        network: row.kind,
        bridge: row.source,
        is_active: spec_lookup_flag(activity, row.kind),
    }
}

/// Assemble the reconciler's interface records from parsed listing rows
/// and the activity of each referenced network.
pub fn interfaces_from_rows(
    rows: &Vec<IfaceRow>,
    activity: &Vec<(String, bool)>,
) -> (r: Vec<NetworkInterface>)
    ensures
        r@.map_values(|f: NetworkInterface| f@) == rows@.map_values(|x: IfaceRow| x@).map_values(
            |row: IfaceRowV|
                spec_iface_of_row(
                    row,
                    activity@.map_values(|p: (String, bool)| (p.0@, p.1)),
                ),
        ),
{
    let ghost rowsv = rows@.map_values(|x: IfaceRow| x@);
    let ghost actsv = activity@.map_values(|p: (String, bool)| (p.0@, p.1));
    let ghost goal = rowsv.map_values(|row: IfaceRowV| spec_iface_of_row(row, actsv));
    let mut out: Vec<NetworkInterface> = Vec::new();
    let mut i: usize = 0;
    proof {
        assert(out@.map_values(|f: NetworkInterface| f@) =~= goal.take(0));
    }
    while i < rows.len()
        invariant
            rowsv == rows@.map_values(|x: IfaceRow| x@),
            actsv == activity@.map_values(|p: (String, bool)| (p.0@, p.1)),
            goal == rowsv.map_values(|row: IfaceRowV| spec_iface_of_row(row, actsv)),
            0 <= i <= rows@.len(),
            out@.map_values(|f: NetworkInterface| f@) == goal.take(i as int),
        decreases rows@.len() - i,
    {
        let active = lookup_flag(activity, rows[i].kind.as_str());
        let item = NetworkInterface {
            mac_address: rows[i].mac.clone(),
            network: rows[i].kind.clone(),
            bridge: rows[i].source.clone(),
            is_active: active,
        };
        proof {
            assert(rowsv[i as int] == rows@[i as int]@);
            assert(item@ == goal[i as int]);
            assert(out@.push(item).map_values(|f: NetworkInterface| f@) =~= out@.map_values(
                |f: NetworkInterface| f@,
            ).push(item@));
            assert(goal.take(i + 1) =~= goal.take(i as int).push(goal[i as int]));
        }
        out.push(item);
        i = i + 1;
    }
    proof {
        assert(goal.take(rows@.len() as int) =~= goal);
    }
    out
}

/// The bridge recorded for a network, if its detail dump named one.
pub open spec fn spec_lookup_bridge(
    pairs: Seq<(Seq<char>, Option<Seq<char>>)>,
    name: Seq<char>,
) -> Option<Seq<char>>
    decreases pairs.len(),
{
    if pairs.len() == 0 {
        None
    } else if pairs[0].0 == name {
        pairs[0].1
    } else {
        spec_lookup_bridge(pairs.drop_first(), name)
    }
}

fn lookup_bridge(pairs: &Vec<(String, Option<String>)>, name: &str) -> (r: Option<String>)
    ensures
        ({
            let spec = spec_lookup_bridge(
                pairs@.map_values(
                    |p: (String, Option<String>)|
                        (
                            p.0@,
                            match p.1 {
                                Some(b) => Some(b@),
                                None => None,
                            },
                        ),
                ),
                name@,
            );
            &&& (r is Some <==> spec is Some)
            &&& (r matches Some(b) ==> spec == Some(b@))
        }),
{
    let ghost all = pairs@.map_values(
        |p: (String, Option<String>)|
            (
                p.0@,
                match p.1 {
                    Some(b) => Some(b@),
                    None => None,
                },
            ),
    );
    let mut i: usize = 0;
    proof {
        assert(all.skip(0) =~= all);
    }
    while i < pairs.len()
        invariant
            all == pairs@.map_values(
                |p: (String, Option<String>)|
                    (
                        p.0@,
                        match p.1 {
                            Some(b) => Some(b@),
                            None => None,
                        },
                    ),
            ),
            0 <= i <= pairs@.len(),
            spec_lookup_bridge(all, name@) == spec_lookup_bridge(all.skip(i as int), name@),
        decreases pairs@.len() - i,
    {
        proof {
            assert(all.skip(i as int)[0] == all[i as int]);
            assert(all.skip(i as int).drop_first() =~= all.skip(i + 1));
        }
        if str_eq(pairs[i].0.as_str(), name) {
            return match &pairs[i].1 {
                Some(b) => Some(b.clone()),
                None => None,
            };
        }
        i = i + 1;
    }
    proof {
        assert(all.skip(pairs@.len() as int) =~= Seq::<(Seq<char>, Option<Seq<char>>)>::empty());
    }
    None
}

/// The reconciler's record of one known network: no hardware address,
/// the recorded bridge or the conventional default when the detail
/// dump named none, and the listed active flag.
pub open spec fn spec_available_network(
    name: Seq<char>,
    active: bool,
    bridges: Seq<(Seq<char>, Option<Seq<char>>)>,
) -> NetworkInterfaceV {
    NetworkInterfaceV {
        mac_address: Seq::empty(),
        network: name,
        bridge: match spec_lookup_bridge(bridges, name) {
            Some(b) => b,
            None => "virbr0"@,
        },
        is_active: active,
    }
}

/// Assemble the reconciler's network records from the parsed network
/// listing and the per-network bridge lookups.
pub fn available_networks_from(
    rows: &Vec<(String, bool)>,
    bridges: &Vec<(String, Option<String>)>,
) -> (r: Vec<NetworkInterface>)
    ensures
        r@.len() == rows@.len(),
        forall|k: int|
            0 <= k < rows@.len() ==> (#[trigger] r@[k])@ == spec_available_network(
                rows@[k].0@,
                rows@[k].1,
                bridges@.map_values(
                    |p: (String, Option<String>)|
                        (
                            p.0@,
                            match p.1 {
                                Some(b) => Some(b@),
                                None => None,
                            },
                        ),
                ),
            ),
{
    let mut out: Vec<NetworkInterface> = Vec::new();
    let mut i: usize = 0;
    while i < rows.len()
        invariant
            0 <= i <= rows@.len(),
            out@.len() == i,
            forall|k: int|
                0 <= k < i ==> (#[trigger] out@[k])@ == spec_available_network(
                    rows@[k].0@,
                    rows@[k].1,
                    bridges@.map_values(
                        |p: (String, Option<String>)|
                            (
                                p.0@,
                                match p.1 {
                                    Some(b) => Some(b@),
                                    None => None,
                                },
                            ),
                    ),
                ),
        decreases rows@.len() - i,
    {
        let bridge = match lookup_bridge(bridges, rows[i].0.as_str()) {
            Some(b) => b,
            None => String::from_str("virbr0"),
        };
        let item = NetworkInterface {
            mac_address: String::new(),
            network: rows[i].0.clone(),
            bridge,
            is_active: rows[i].1,
        };
        out.push(item);
        i = i + 1;
    }
    out
}

/// The hardware addresses named by one interface listing.
pub open spec fn spec_macs_of_text(text: Seq<char>) -> Seq<Seq<char>> {
    spec_parse_domiflist(text).map_values(|r: IfaceRowV| r.mac)
}

/// The fleet-wide address list: every hardware address of every
/// machine's interface listing, in order.
pub open spec fn spec_collect_macs(outputs: Seq<Seq<char>>) -> Seq<Seq<char>>
    decreases outputs.len(),
{
    if outputs.len() == 0 {
        Seq::empty()
    } else {
        spec_collect_macs(outputs.drop_last()) + spec_macs_of_text(outputs.last())
    }
}

/// Gather every hardware address in use across the fleet from the
/// interface listings of all machines.
pub fn collect_all_macs(outputs: &Vec<String>) -> (r: Vec<String>)
    ensures
        r@.map_values(|m: String| m@) == spec_collect_macs(
            outputs@.map_values(|o: String| o@),
        ),
{
    let ghost outsv = outputs@.map_values(|o: String| o@);
    let mut out: Vec<String> = Vec::new();
    let mut i: usize = 0;
    proof {
        assert(outsv.take(0) =~= Seq::<Seq<char>>::empty());
        assert(out@.map_values(|m: String| m@) =~= spec_collect_macs(outsv.take(0)));
    }
    while i < outputs.len()
        invariant
            outsv == outputs@.map_values(|o: String| o@),
            0 <= i <= outputs@.len(),
            out@.map_values(|m: String| m@) == spec_collect_macs(outsv.take(i as int)),
        decreases outputs@.len() - i,
    {
        proof {
            assert(outsv.take(i + 1).drop_last() =~= outsv.take(i as int));
            assert(outsv.take(i + 1).last() == outsv[i as int]);
            assert(outsv[i as int] == outputs@[i as int]@);
        }
        let rows = parse_domiflist(outputs[i].as_str());
        let ghost rowsv = rows@.map_values(|x: IfaceRow| x@);
        let ghost piece = spec_macs_of_text(outsv[i as int]);
        let ghost before = out@.map_values(|m: String| m@);
        let mut j: usize = 0;
        proof {
            assert(rowsv.map_values(|r: IfaceRowV| r.mac) == piece);
            assert(piece.take(0) =~= Seq::<Seq<char>>::empty());
            assert(before + piece.take(0) =~= before);
        }
        while j < rows.len()
            invariant
                rowsv == rows@.map_values(|x: IfaceRow| x@),
                piece == rowsv.map_values(|r: IfaceRowV| r.mac),
                0 <= j <= rows@.len(),
                out@.map_values(|m: String| m@) == before + piece.take(j as int),
            decreases rows@.len() - j,
        {
            let owned = rows[j].mac.clone();
            proof {
                assert(rowsv[j as int] == rows@[j as int]@);
                assert(piece[j as int] == owned@);
                assert(out@.push(owned).map_values(|m: String| m@) =~= out@.map_values(
                    |m: String| m@,
                ).push(owned@));
                assert(piece.take(j + 1) =~= piece.take(j as int).push(piece[j as int]));
                assert(before + piece.take(j as int).push(piece[j as int]) =~= (before
                    + piece.take(j as int)).push(piece[j as int]));
            }
            out.push(owned);
            j = j + 1;
        }
        proof {
            assert(piece.take(rows@.len() as int) =~= piece);
            assert(spec_collect_macs(outsv.take(i + 1)) == spec_collect_macs(outsv.take(i as int))
                + piece);
        }
        i = i + 1;
    }
    proof {
        assert(outsv.take(outputs@.len() as int) =~= outsv);
    }
    out
}

} // verus!
