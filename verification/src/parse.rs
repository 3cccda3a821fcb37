use vstd::prelude::*;
use vstd::string::*;
use crate::model::{
    DiskInfo,
    DiskInfoV,
    DominfoData,
    DominfoDataV,
    NetworkRecord,
    NetworkRecordV,
    IfaceRow,
    IfaceRowV,
};
use crate::state::{
    VmState,
    spec_state_from_listing,
    spec_state_from_detail,
    state_from_listing,
    state_from_detail,
};
use crate::text::{
    sep_pos,
    spec_split,
    spec_tokens,
    spec_trim,
    spec_starts_with,
    spec_contains,
    spec_is_u64_string,
    spec_digits_val,
    spec_uint_body,
    split_char,
    split_once_char,
    tokenize,
    trim,
    str_eq,
    starts_with,
    contains_str,
    parse_u64,
    parse_u32,
};

verus! {

/// The data rows of a listing: everything after the two header lines,
/// whatever those lines hold.
pub open spec fn spec_listing_lines(text: Seq<char>) -> Seq<Seq<char>> {
    let ls = spec_split(text, '\n');
    if ls.len() <= 2 {
        Seq::empty()
    } else {
        ls.skip(2)
    }
}

/// One row of the machine listing: a name and a state, taken from the
/// second and third column; rows with fewer than three tokens are
/// silently skipped.
pub open spec fn spec_list_row(line: Seq<char>) -> Seq<(Seq<char>, VmState)> {
    let t = spec_tokens(line);
    if t.len() >= 3 {
        seq![(t[1], spec_state_from_listing(t[2]))]
    } else {
        Seq::empty()
    }
}

pub open spec fn spec_list_rows(lines: Seq<Seq<char>>) -> Seq<(Seq<char>, VmState)>
    decreases lines.len(),
{
    if lines.len() == 0 {
        Seq::empty()
    } else {
        spec_list_rows(lines.drop_last()) + spec_list_row(lines.last())
    }
}

pub open spec fn spec_parse_list(text: Seq<char>) -> Seq<(Seq<char>, VmState)> {
    spec_list_rows(spec_listing_lines(text))
}

/// Parse the machine listing: two header lines are skipped, each further
/// row with at least three whitespace-separated tokens yields the machine
/// name and its listing state.
pub fn parse_list(text: &str) -> (r: Vec<(String, VmState)>)
    ensures
        r@.map_values(|p: (String, VmState)| (p.0@, p.1)) == spec_parse_list(text@),
{
    let lines = split_char(text, '\n');
    let mut out: Vec<(String, VmState)> = Vec::new();
    let ghost all = spec_split(text@, '\n');
    let ghost sub = spec_listing_lines(text@);
    if lines.len() <= 2 {
        proof {
            assert(out@.map_values(|p: (String, VmState)| (p.0@, p.1))
                =~= spec_parse_list(text@));
        }
        return out;
    }
    let mut i: usize = 2;
    proof {
        assert(sub.take(0) =~= Seq::<Seq<char>>::empty());
        assert(out@.map_values(|p: (String, VmState)| (p.0@, p.1)) =~= spec_list_rows(
            sub.take(0),
        ));
    }
    while i < lines.len()
        invariant
            lines@.map_values(|l: String| l@) == all,
            all.len() > 2,
            sub == all.skip(2),
            sub == spec_listing_lines(text@),
            2 <= i <= lines@.len(),
            out@.map_values(|p: (String, VmState)| (p.0@, p.1)) == spec_list_rows(
                sub.take(i - 2),
            ),
        decreases lines@.len() - i,
    {
        let ghost m = i - 2;
        proof {
            assert(lines@[i as int]@ == all[i as int]);
            assert(sub[m] == all[i as int]);
            assert(sub.take(m + 1).drop_last() =~= sub.take(m));
            assert(sub.take(m + 1).last() == sub[m]);
        }
        let toks = tokenize(lines[i].as_str());
        if toks.len() >= 3 {
            let name = toks[1].clone();
            let state = state_from_listing(toks[2].as_str());
            let item = (name, state);
            proof {
                assert(toks@.map_values(|t: String| t@)[1] == spec_tokens(sub[m])[1]);
                assert(toks@.map_values(|t: String| t@)[2] == spec_tokens(sub[m])[2]);
                assert(spec_list_row(sub[m]) =~= seq![(item.0@, item.1)]);
                assert(out@.push(item).map_values(|p: (String, VmState)| (p.0@, p.1))
                    =~= out@.map_values(|p: (String, VmState)| (p.0@, p.1)).push(
                    (item.0@, item.1),
                ));
                assert(spec_list_rows(sub.take(m)) + spec_list_row(sub[m]) =~= spec_list_rows(
                    sub.take(m),
                ).push((item.0@, item.1)));
            }
            out.push(item);
        } else {
            proof {
                assert(spec_list_row(sub[m]) =~= Seq::<(Seq<char>, VmState)>::empty());
                assert(spec_list_rows(sub.take(m)) + spec_list_row(sub[m]) =~= spec_list_rows(
                    sub.take(m),
                ));
            }
        }
        i = i + 1;
    }
    proof {
        assert(sub.take(lines@.len() - 2) =~= sub);
    }
    out
}

/// One row of the network listing: name, active flag, autostart flag,
/// and, when a fourth column is present, its text; rows with fewer than
/// three tokens are silently skipped.
pub open spec fn spec_net_row(line: Seq<char>) -> Seq<NetworkRecordV> {
    let t = spec_tokens(line);
    if t.len() >= 3 {
        seq![
            NetworkRecordV {
                name: t[0],
                active: t[1] == "active"@,
                bridge: if t.len() >= 4 {
                    t[3]
                } else {
                    "-"@
                },
                autostart: t[2] == "yes"@,
            },
        ]
    } else {
        Seq::empty()
    }
}

pub open spec fn spec_net_rows(lines: Seq<Seq<char>>) -> Seq<NetworkRecordV>
    decreases lines.len(),
{
    if lines.len() == 0 {
        Seq::empty()
    } else {
        spec_net_rows(lines.drop_last()) + spec_net_row(lines.last())
    }
}

pub open spec fn spec_parse_net_list(text: Seq<char>) -> Seq<NetworkRecordV> {
    spec_net_rows(spec_listing_lines(text))
}

/// Parse the network listing: two header lines are skipped, each further
/// row with at least three tokens yields a network record. The state
/// column counts as active exactly when it reads `active`, autostart
/// exactly when it reads `yes`.
pub fn parse_net_list(text: &str) -> (r: Vec<NetworkRecord>)
    ensures
        r@.map_values(|n: NetworkRecord| n@) == spec_parse_net_list(text@),
{
    let lines = split_char(text, '\n');
    let mut out: Vec<NetworkRecord> = Vec::new();
    let ghost all = spec_split(text@, '\n');
    let ghost sub = spec_listing_lines(text@);
    if lines.len() <= 2 {
        proof {
            assert(out@.map_values(|n: NetworkRecord| n@) =~= spec_parse_net_list(text@));
        }
        return out;
    }
    let mut i: usize = 2;
    proof {
        assert(sub.take(0) =~= Seq::<Seq<char>>::empty());
        assert(out@.map_values(|n: NetworkRecord| n@) =~= spec_net_rows(sub.take(0)));
    }
    while i < lines.len()
        invariant
            lines@.map_values(|l: String| l@) == all,
            all.len() > 2,
            sub == all.skip(2),
            sub == spec_listing_lines(text@),
            2 <= i <= lines@.len(),
            out@.map_values(|n: NetworkRecord| n@) == spec_net_rows(sub.take(i - 2)),
        decreases lines@.len() - i,
    {
        let ghost m = i - 2;
        proof {
            assert(lines@[i as int]@ == all[i as int]);
            assert(sub[m] == all[i as int]);
            assert(sub.take(m + 1).drop_last() =~= sub.take(m));
            assert(sub.take(m + 1).last() == sub[m]);
        }
        let toks = tokenize(lines[i].as_str());
        if toks.len() >= 3 {
            let bridge = if toks.len() >= 4 {
                toks[3].clone()
            } else {
                String::from_str("-")
            };
            let item = NetworkRecord {
                name: toks[0].clone(),
                active: str_eq(toks[1].as_str(), "active"),
                bridge,
                autostart: str_eq(toks[2].as_str(), "yes"),
            };
            proof {
                let tv = toks@.map_values(|t: String| t@);
                assert(tv[0] == spec_tokens(sub[m])[0]);
                assert(tv[1] == spec_tokens(sub[m])[1]);
                assert(tv[2] == spec_tokens(sub[m])[2]);
                if toks@.len() >= 4 {
                    assert(tv[3] == spec_tokens(sub[m])[3]);
                }
                assert(spec_net_row(sub[m]) =~= seq![item@]);
                assert(out@.push(item).map_values(|n: NetworkRecord| n@) =~= out@.map_values(
                    |n: NetworkRecord| n@,
                ).push(item@));
                assert(spec_net_rows(sub.take(m)) + spec_net_row(sub[m]) =~= spec_net_rows(
                    sub.take(m),
                ).push(item@));
            }
            out.push(item);
        } else {
            proof {
                assert(spec_net_row(sub[m]) =~= Seq::<NetworkRecordV>::empty());
                assert(spec_net_rows(sub.take(m)) + spec_net_row(sub[m]) =~= spec_net_rows(
                    sub.take(m),
                ));
            }
        }
        i = i + 1;
    }
    proof {
        assert(sub.take(lines@.len() - 2) =~= sub);
    }
    out
}

/// One row of the disk listing: the device tag and path stand in the
/// third and fourth column; size and usage are not reported there and
/// default to zero, the image format to `qcow2`. Rows with fewer than
/// four tokens are silently skipped.
pub open spec fn spec_disk_row(line: Seq<char>) -> Seq<DiskInfoV> {
    let t = spec_tokens(line);
    if t.len() >= 4 {
        seq![DiskInfoV { device: t[2], path: t[3], size: 0, used: 0, format: "qcow2"@ }]
    } else {
        Seq::empty()
    }
}

pub open spec fn spec_disk_rows(lines: Seq<Seq<char>>) -> Seq<DiskInfoV>
    decreases lines.len(),
{
    if lines.len() == 0 {
        Seq::empty()
    } else {
        spec_disk_rows(lines.drop_last()) + spec_disk_row(lines.last())
    }
}

pub open spec fn spec_parse_domblklist(text: Seq<char>) -> Seq<DiskInfoV> {
    spec_disk_rows(spec_listing_lines(text))
}

/// Parse the detailed disk listing of one machine.
pub fn parse_domblklist(text: &str) -> (r: Vec<DiskInfo>)
    ensures
        r@.map_values(|d: DiskInfo| d@) == spec_parse_domblklist(text@),
{
    let lines = split_char(text, '\n');
    let mut out: Vec<DiskInfo> = Vec::new();
    let ghost all = spec_split(text@, '\n');
    let ghost sub = spec_listing_lines(text@);
    if lines.len() <= 2 {
        proof {
            assert(out@.map_values(|d: DiskInfo| d@) =~= spec_parse_domblklist(text@));
        }
        return out;
    }
    let mut i: usize = 2;
    proof {
        assert(sub.take(0) =~= Seq::<Seq<char>>::empty());
        assert(out@.map_values(|d: DiskInfo| d@) =~= spec_disk_rows(sub.take(0)));
    }
    while i < lines.len()
        invariant
            lines@.map_values(|l: String| l@) == all,
            all.len() > 2,
            sub == all.skip(2),
            sub == spec_listing_lines(text@),
            2 <= i <= lines@.len(),
            out@.map_values(|d: DiskInfo| d@) == spec_disk_rows(sub.take(i - 2)),
        decreases lines@.len() - i,
    {
        let ghost m = i - 2;
        proof {
            assert(lines@[i as int]@ == all[i as int]);
            assert(sub[m] == all[i as int]);
            assert(sub.take(m + 1).drop_last() =~= sub.take(m));
            assert(sub.take(m + 1).last() == sub[m]);
        }
        let toks = tokenize(lines[i].as_str());
        if toks.len() >= 4 {
            let item = DiskInfo {
                device: toks[2].clone(),
                path: toks[3].clone(),
                size: 0,
                used: 0,
                format: String::from_str("qcow2"),
            };
            proof {
                let tv = toks@.map_values(|t: String| t@);
                assert(tv[2] == spec_tokens(sub[m])[2]);
                assert(tv[3] == spec_tokens(sub[m])[3]);
                assert(spec_disk_row(sub[m]) =~= seq![item@]);
                assert(out@.push(item).map_values(|d: DiskInfo| d@) =~= out@.map_values(
                    |d: DiskInfo| d@,
                ).push(item@));
                assert(spec_disk_rows(sub.take(m)) + spec_disk_row(sub[m]) =~= spec_disk_rows(
                    sub.take(m),
                ).push(item@));
            }
            out.push(item);
        } else {
            proof {
                assert(spec_disk_row(sub[m]) =~= Seq::<DiskInfoV>::empty());
                assert(spec_disk_rows(sub.take(m)) + spec_disk_row(sub[m]) =~= spec_disk_rows(
                    sub.take(m),
                ));
            }
        }
        i = i + 1;
    }
    proof {
        assert(sub.take(lines@.len() - 2) =~= sub);
    }
    out
}

/// One row of the interface listing, by fixed column position; rows with
/// fewer than five tokens are silently skipped.
pub open spec fn spec_iface_row(line: Seq<char>) -> Seq<IfaceRowV> {
    let t = spec_tokens(line);
    if t.len() >= 5 {
        seq![IfaceRowV { interface: t[0], kind: t[1], source: t[2], model: t[3], mac: t[4] }]
    } else {
        Seq::empty()
    }
}

pub open spec fn spec_iface_rows(lines: Seq<Seq<char>>) -> Seq<IfaceRowV>
    decreases lines.len(),
{
    if lines.len() == 0 {
        Seq::empty()
    } else {
        spec_iface_rows(lines.drop_last()) + spec_iface_row(lines.last())
    }
}

pub open spec fn spec_parse_domiflist(text: Seq<char>) -> Seq<IfaceRowV> {
    spec_iface_rows(spec_listing_lines(text))
}

/// Parse the interface listing of one machine.
pub fn parse_domiflist(text: &str) -> (r: Vec<IfaceRow>)
    ensures
        r@.map_values(|f: IfaceRow| f@) == spec_parse_domiflist(text@),
{
    let lines = split_char(text, '\n');
    let mut out: Vec<IfaceRow> = Vec::new();
    let ghost all = spec_split(text@, '\n');
    let ghost sub = spec_listing_lines(text@);
    if lines.len() <= 2 {
        proof {
            assert(out@.map_values(|f: IfaceRow| f@) =~= spec_parse_domiflist(text@));
        }
        return out;
    }
    let mut i: usize = 2;
    proof {
        assert(sub.take(0) =~= Seq::<Seq<char>>::empty());
        assert(out@.map_values(|f: IfaceRow| f@) =~= spec_iface_rows(sub.take(0)));
    }
    while i < lines.len()
        invariant
            lines@.map_values(|l: String| l@) == all,
            all.len() > 2,
            sub == all.skip(2),
            sub == spec_listing_lines(text@),
            2 <= i <= lines@.len(),
            out@.map_values(|f: IfaceRow| f@) == spec_iface_rows(sub.take(i - 2)),
        decreases lines@.len() - i,
    {
        let ghost m = i - 2;
        proof {
            assert(lines@[i as int]@ == all[i as int]);
            assert(sub[m] == all[i as int]);
            assert(sub.take(m + 1).drop_last() =~= sub.take(m));
            assert(sub.take(m + 1).last() == sub[m]);
        }
        let toks = tokenize(lines[i].as_str());
        if toks.len() >= 5 {
            let item = IfaceRow {
                interface: toks[0].clone(),
                kind: toks[1].clone(),
                source: toks[2].clone(),
                model: toks[3].clone(),
                mac: toks[4].clone(),
            };
            proof {
                let tv = toks@.map_values(|t: String| t@);
                assert(tv[0] == spec_tokens(sub[m])[0]);
                assert(tv[1] == spec_tokens(sub[m])[1]);
                assert(tv[2] == spec_tokens(sub[m])[2]);
                assert(tv[3] == spec_tokens(sub[m])[3]);
                assert(tv[4] == spec_tokens(sub[m])[4]);
                assert(spec_iface_row(sub[m]) =~= seq![item@]);
                assert(out@.push(item).map_values(|f: IfaceRow| f@) =~= out@.map_values(
                    |f: IfaceRow| f@,
                ).push(item@));
                assert(spec_iface_rows(sub.take(m)) + spec_iface_row(sub[m]) =~= spec_iface_rows(
                    sub.take(m),
                ).push(item@));
            }
            out.push(item);
        } else {
            proof {
                assert(spec_iface_row(sub[m]) =~= Seq::<IfaceRowV>::empty());
                assert(spec_iface_rows(sub.take(m)) + spec_iface_row(sub[m]) =~= spec_iface_rows(
                    sub.take(m),
                ));
            }
        }
        i = i + 1;
    }
    proof {
        assert(sub.take(lines@.len() - 2) =~= sub);
    }
    out
}

/// The empty record a detail dump starts from: no identity token, the
/// `Unknown` state, and zero resources.
pub open spec fn spec_dominfo_init() -> DominfoDataV {
    DominfoDataV { uuid: Seq::empty(), state: VmState::Unknown, memory: 0, cpus: 0 }
}

/// One `key: value` line of a detail dump folded into the record built so
/// far: the line is split on its first colon, both halves are trimmed,
/// and only the four keys used here change anything. Unrecognized keys
/// are ignored, not rejected, and a line without a colon changes nothing.
pub open spec fn spec_dominfo_step(acc: DominfoDataV, line: Seq<char>) -> DominfoDataV {
    if sep_pos(line, ':') == line.len() {
        acc
    } else {
        let key = spec_trim(line.take(sep_pos(line, ':')));
        let value = spec_trim(line.skip(sep_pos(line, ':') + 1));
        if key == "UUID"@ {
            DominfoDataV { uuid: value, ..acc }
        } else if key == "State"@ {
            DominfoDataV { state: spec_state_from_detail(value), ..acc }
        } else if key == "Max memory"@ {
            let toks = spec_tokens(value);
            let first = if toks.len() > 0 {
                toks[0]
            } else {
                "0"@
            };
            if spec_is_u64_string(first) {
                DominfoDataV {
                    memory: (spec_digits_val(spec_uint_body(first)) / 1024) as u64,
                    ..acc
                }
            } else {
                acc
            }
        } else if key == "CPU(s)"@ {
            if spec_is_u64_string(value) && spec_digits_val(spec_uint_body(value)) <= u32::MAX {
                DominfoDataV { cpus: spec_digits_val(spec_uint_body(value)) as u32, ..acc }
            } else {
                acc
            }
        } else {
            acc
        }
    }
}

pub open spec fn spec_dominfo_lines(lines: Seq<Seq<char>>) -> DominfoDataV
    decreases lines.len(),
{
    if lines.len() == 0 {
        spec_dominfo_init()
    } else {
        spec_dominfo_step(spec_dominfo_lines(lines.drop_last()), lines.last())
    }
}

pub open spec fn spec_parse_dominfo(text: Seq<char>) -> DominfoDataV {
    spec_dominfo_lines(spec_split(text, '\n'))
}

/// Parse a per-machine detail dump of `key: value` lines. The memory
/// value's first token is kilobytes and is reported in megabytes.
pub fn parse_dominfo(text: &str) -> (r: DominfoData)
    ensures
        r@ == spec_parse_dominfo(text@),
{
    let lines = split_char(text, '\n');
    let ghost all = spec_split(text@, '\n');
    let mut acc = DominfoData {
        uuid: String::new(),
        state: VmState::Unknown,
        memory: 0,
        cpus: 0,
    };
    let mut i: usize = 0;
    proof {
        assert(all.take(0) =~= Seq::<Seq<char>>::empty());
    }
    while i < lines.len()
        invariant
            lines@.map_values(|l: String| l@) == all,
            all == spec_split(text@, '\n'),
            0 <= i <= lines@.len(),
            acc@ == spec_dominfo_lines(all.take(i as int)),
        decreases lines@.len() - i,
    {
        proof {
            assert(lines@[i as int]@ == all[i as int]);
            assert(all.take(i + 1).drop_last() =~= all.take(i as int));
            assert(all.take(i + 1).last() == all[i as int]);
            crate::text::lemma_sep_pos_bounds(all[i as int], ':');
        }
        let line = lines[i].as_str();
        match split_once_char(line, ':') {
            None => {},
            Some((rawkey, rawvalue)) => {
                let key = trim(rawkey.as_str());
                let value = trim(rawvalue.as_str());
                if str_eq(key.as_str(), "UUID") {
                    acc.uuid = value;
                } else if str_eq(key.as_str(), "State") {
                    acc.state = state_from_detail(value.as_str());
                } else if str_eq(key.as_str(), "Max memory") {
                    let toks = tokenize(value.as_str());
                    proof {
                        if toks@.len() > 0 {
                            assert(toks@.map_values(|t: String| t@)[0] == spec_tokens(value@)[0]);
                        }
                    }
                    let parsed = if toks.len() > 0 {
                        parse_u64(toks[0].as_str())
                    } else {
                        parse_u64("0")
                    };
                    match parsed {
                        Some(kb) => {
                            acc.memory = kb / 1024;
                        },
                        None => {},
                    }
                } else if str_eq(key.as_str(), "CPU(s)") {
                    match parse_u32(value.as_str()) {
                        Some(c) => {
                            acc.cpus = c;
                        },
                        None => {},
                    }
                }
            },
        }
        i = i + 1;
    }
    proof {
        assert(all.take(lines@.len() as int) =~= all);
    }
    acc
}

/// Parse the single-line state query: the whole output is trimmed and
/// classified under the fixed state vocabulary.
pub fn parse_domstate(text: &str) -> (r: VmState)
    ensures
        r == spec_state_from_detail(spec_trim(text@)),
{
    let t = trim(text);
    state_from_detail(t.as_str())
}

/// Whether a per-network detail dump reports the network active: the
/// first line starting with `Active:` decides, by whether it holds
/// `yes`; without such a line the network counts as inactive.
pub open spec fn spec_net_info_active(lines: Seq<Seq<char>>) -> bool
    decreases lines.len(),
{
    if lines.len() == 0 {
        false
    } else if spec_starts_with(lines[0], "Active:"@) {
        spec_contains(lines[0], "yes"@)
    } else {
        spec_net_info_active(lines.drop_first())
    }
}

pub open spec fn spec_parse_net_info_active(text: Seq<char>) -> bool {
    spec_net_info_active(spec_split(text, '\n'))
}

pub fn parse_net_info_active(text: &str) -> (r: bool)
    ensures
        r == spec_parse_net_info_active(text@),
{
    let lines = split_char(text, '\n');
    let ghost all = spec_split(text@, '\n');
    let mut i: usize = 0;
    proof {
        assert(all.skip(0) =~= all);
    }
    while i < lines.len()
        invariant
            lines@.map_values(|l: String| l@) == all,
            all == spec_split(text@, '\n'),
            0 <= i <= lines@.len(),
            spec_net_info_active(all) == spec_net_info_active(all.skip(i as int)),
        decreases lines@.len() - i,
    {
        proof {
            assert(lines@[i as int]@ == all[i as int]);
            assert(all.skip(i as int)[0] == all[i as int]);
            assert(all.skip(i as int).drop_first() =~= all.skip(i + 1));
        }
        let line = lines[i].as_str();
        if starts_with(line, "Active:") {
            return contains_str(line, "yes");
        }
        i = i + 1;
    }
    proof {
        assert(all.skip(lines@.len() as int) =~= Seq::<Seq<char>>::empty());
    }
    false
}

/// The bridge a per-network detail dump names: the second token of the
/// first line starting with `Bridge:`, if that line and token exist.
pub open spec fn spec_net_info_bridge(lines: Seq<Seq<char>>) -> Option<Seq<char>>
    decreases lines.len(),
{
    if lines.len() == 0 {
        None
    } else if spec_starts_with(lines[0], "Bridge:"@) {
        let t = spec_tokens(lines[0]);
        if t.len() >= 2 {
            Some(t[1])
        } else {
            None
        }
    } else {
        spec_net_info_bridge(lines.drop_first())
    }
}

pub open spec fn spec_parse_net_info_bridge(text: Seq<char>) -> Option<Seq<char>> {
    spec_net_info_bridge(spec_split(text, '\n'))
}

pub fn parse_net_info_bridge(text: &str) -> (r: Option<String>)
    ensures
        r is Some <==> spec_parse_net_info_bridge(text@) is Some,
        r matches Some(b) ==> spec_parse_net_info_bridge(text@) == Some(b@),
{
    let lines = split_char(text, '\n');
    let ghost all = spec_split(text@, '\n');
    let mut i: usize = 0;
    proof {
        assert(all.skip(0) =~= all);
    }
    while i < lines.len()
        invariant
            lines@.map_values(|l: String| l@) == all,
            all == spec_split(text@, '\n'),
            0 <= i <= lines@.len(),
            spec_net_info_bridge(all) == spec_net_info_bridge(all.skip(i as int)),
        decreases lines@.len() - i,
    {
        proof {
            assert(lines@[i as int]@ == all[i as int]);
            assert(all.skip(i as int)[0] == all[i as int]);
            assert(all.skip(i as int).drop_first() =~= all.skip(i + 1));
        }
        let line = lines[i].as_str();
        if starts_with(line, "Bridge:") {
            let toks = tokenize(line);
            if toks.len() >= 2 {
                return Some(toks[1].clone());
            } else {
                return None;
            }
        }
        i = i + 1;
    }
    proof {
        assert(all.skip(lines@.len() as int) =~= Seq::<Seq<char>>::empty());
    }
    None
}

/// How many lines of a processor dump start with `processor`.
pub open spec fn spec_count_processor_lines(lines: Seq<Seq<char>>) -> int
    decreases lines.len(),
{
    if lines.len() == 0 {
        0
    } else {
        spec_count_processor_lines(lines.drop_last()) + if spec_starts_with(
            lines.last(),
            "processor"@,
        ) {
            1int
        } else {
            0int
        }
    }
}

/// Count the processor entries of a processor dump.
pub fn count_processor_lines(text: &str) -> (r: u32)
    ensures
        spec_count_processor_lines(spec_split(text@, '\n')) <= u32::MAX ==> r
            == spec_count_processor_lines(spec_split(text@, '\n')),
{
    let lines = split_char(text, '\n');
    let ghost all = spec_split(text@, '\n');
    let mut count: u64 = 0;
    let mut i: usize = 0;
    proof {
        assert(all.take(0) =~= Seq::<Seq<char>>::empty());
        lemma_count_processor_bounds(all.take(0));
    }
    while i < lines.len()
        invariant
            lines@.map_values(|l: String| l@) == all,
            all == spec_split(text@, '\n'),
            0 <= i <= lines@.len(),
            count == spec_count_processor_lines(all.take(i as int)),
            0 <= count <= i,
        decreases lines@.len() - i,
    {
        proof {
            assert(lines@[i as int]@ == all[i as int]);
            assert(all.take(i + 1).drop_last() =~= all.take(i as int));
            assert(all.take(i + 1).last() == all[i as int]);
        }
        if starts_with(lines[i].as_str(), "processor") {
            count = count + 1;
        }
        i = i + 1;
    }
    proof {
        assert(all.take(lines@.len() as int) =~= all);
    }
    if count > 0xffff_ffff {
        0xffff_ffff
    } else {
        count as u32
    }
}

proof fn lemma_count_processor_bounds(lines: Seq<Seq<char>>)
    ensures
        0 <= spec_count_processor_lines(lines) <= lines.len(),
    decreases lines.len(),
{
    if lines.len() > 0 {
        lemma_count_processor_bounds(lines.drop_last());
    }
}

/// Total memory in megabytes from a memory dump: the second token of the
/// first line starting with `MemTotal:` is kilobytes; a missing line,
/// missing token, or unparsable token yields zero.
pub open spec fn spec_mem_total_mb(lines: Seq<Seq<char>>) -> int
    decreases lines.len(),
{
    if lines.len() == 0 {
        0
    } else if spec_starts_with(lines[0], "MemTotal:"@) {
        let t = spec_tokens(lines[0]);
        if t.len() >= 2 && spec_is_u64_string(t[1]) {
            spec_digits_val(spec_uint_body(t[1])) / 1024
        } else {
            0
        }
    } else {
        spec_mem_total_mb(lines.drop_first())
    }
}

pub fn mem_total_mb(text: &str) -> (r: u64)
    ensures
        r == spec_mem_total_mb(spec_split(text@, '\n')),
{
    let lines = split_char(text, '\n');
    let ghost all = spec_split(text@, '\n');
    let mut i: usize = 0;
    proof {
        assert(all.skip(0) =~= all);
    }
    while i < lines.len()
        invariant
            lines@.map_values(|l: String| l@) == all,
            all == spec_split(text@, '\n'),
            0 <= i <= lines@.len(),
            spec_mem_total_mb(all) == spec_mem_total_mb(all.skip(i as int)),
        decreases lines@.len() - i,
    {
        proof {
            assert(lines@[i as int]@ == all[i as int]);
            assert(all.skip(i as int)[0] == all[i as int]);
            assert(all.skip(i as int).drop_first() =~= all.skip(i + 1));
        }
        let line = lines[i].as_str();
        if starts_with(line, "MemTotal:") {
            let toks = tokenize(line);
            if toks.len() >= 2 {
                match parse_u64(toks[1].as_str()) {
                    Some(kb) => {
                        return kb / 1024;
                    },
                    None => {
                        return 0;
                    },
                }
            } else {
                return 0;
            }
        }
        i = i + 1;
    }
    proof {
        assert(all.skip(lines@.len() as int) =~= Seq::<Seq<char>>::empty());
    }
    0
}

/// The parsers read nothing from the two header lines: two listings that
/// agree on everything after them parse identically, whatever their
/// headers hold.
pub proof fn lemma_header_content_ignored(a: Seq<char>, b: Seq<char>)
    requires
        spec_split(a, '\n').len() > 2,
        spec_split(b, '\n').len() > 2,
        spec_split(a, '\n').skip(2) == spec_split(b, '\n').skip(2),
    ensures
        spec_parse_list(a) == spec_parse_list(b),
        spec_parse_net_list(a) == spec_parse_net_list(b),
        spec_parse_domblklist(a) == spec_parse_domblklist(b),
        spec_parse_domiflist(a) == spec_parse_domiflist(b),
{
}

} // verus!
