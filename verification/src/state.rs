use vstd::prelude::*;
use vstd::string::*;

verus! {

/// Lifecycle state of a virtual machine. `Unknown` is the safe default
/// whenever control-plane text cannot be classified; no operation may
/// assume a more specific state than parsing actually yielded.
#[derive(Debug, Clone, Copy, PartialEq, Eq, Structural)]
pub enum VmState {
    Running,
    Stopped,
    Paused,
    Suspended,
    Unknown,
}

/// The lifecycle transitions a caller can request.
#[derive(Debug, Clone, Copy, PartialEq, Eq, Structural)]
pub enum VmOperation {
    Start,
    Shutdown,
    Destroy,
}

/// The fixed state-string vocabulary of detail dumps and of the
/// single-line state query: `"running"`, `"shut off"`, `"paused"`,
/// `"suspended"`; anything else degrades to `Unknown`.
pub open spec fn spec_state_from_detail(s: Seq<char>) -> VmState {
    if s == "running"@ {
        VmState::Running
    } else if s == "shut off"@ {
        VmState::Stopped
    } else if s == "paused"@ {
        VmState::Paused
    } else if s == "suspended"@ {
        VmState::Suspended
    } else {
        VmState::Unknown
    }
}

/// The state vocabulary of listing rows, where the state column is a
/// single token: bare `"shut"` stands for `"shut off"`. The vocabulary
/// is the same fixed one as in detail context; any other token — the
/// `"in"` of `"in shutdown"` included — degrades to `Unknown`.
pub open spec fn spec_state_from_listing(s: Seq<char>) -> VmState {
    if s == "running"@ {
        VmState::Running
    } else if s == "shut"@ {
        VmState::Stopped
    } else if s == "paused"@ {
        VmState::Paused
    } else if s == "suspended"@ {
        VmState::Suspended
    } else {
        VmState::Unknown
    }
}

/// Classify a state string from a detail dump or state query.
///
/// The mapping is total: every string yields a state, and every string
/// outside the fixed vocabulary yields `Unknown`.
pub fn state_from_detail(s: &str) -> (r: VmState)
    ensures
        r == spec_state_from_detail(s@),
{
    if crate::text::str_eq(s, "running") {
        VmState::Running
    } else if crate::text::str_eq(s, "shut off") {
        VmState::Stopped
    } else if crate::text::str_eq(s, "paused") {
        VmState::Paused
    } else if crate::text::str_eq(s, "suspended") {
        VmState::Suspended
    } else {
        VmState::Unknown
    }
}

/// Classify the state token of a listing row.
pub fn state_from_listing(s: &str) -> (r: VmState)
    ensures
        r == spec_state_from_listing(s@),
{
    if crate::text::str_eq(s, "running") {
        VmState::Running
    } else if crate::text::str_eq(s, "shut") {
        VmState::Stopped
    } else if crate::text::str_eq(s, "paused") {
        VmState::Paused
    } else if crate::text::str_eq(s, "suspended") {
        VmState::Suspended
    } else {
        VmState::Unknown
    }
}

/// Which states allow which requested operation: starting needs a machine
/// that is not already running (`Stopped`, `Suspended`, or `Unknown` once
/// verified), a graceful shutdown needs a running machine, and a forced
/// destroy is allowed from any state but `Stopped`.
pub open spec fn spec_actionable(state: VmState, op: VmOperation) -> bool {
    match op {
        VmOperation::Start => state == VmState::Stopped || state == VmState::Suspended || state
            == VmState::Unknown,
        VmOperation::Shutdown => state == VmState::Running,
        VmOperation::Destroy => state != VmState::Stopped,
    }
}

impl VmState {
    /// Whether the requested operation makes sense from this state.
    pub fn is_actionable_for(&self, op: VmOperation) -> (r: bool)
        ensures
            r == spec_actionable(*self, op),
    {
        match op {
            VmOperation::Start => matches!(self, VmState::Stopped | VmState::Suspended | VmState::Unknown),
            VmOperation::Shutdown => matches!(self, VmState::Running),
            VmOperation::Destroy => !matches!(self, VmState::Stopped),
        }
    }

    /// Upper-case label of the state.
    pub fn label(&self) -> (r: String)
        ensures
            self is Running ==> r@ == "RUNNING"@,
            self is Stopped ==> r@ == "STOPPED"@,
            self is Paused ==> r@ == "PAUSED"@,
            self is Suspended ==> r@ == "SUSPENDED"@,
            self is Unknown ==> r@ == "UNKNOWN"@,
    {
        match self {
            VmState::Running => String::from_str("RUNNING"),
            VmState::Stopped => String::from_str("STOPPED"),
            VmState::Paused => String::from_str("PAUSED"),
            VmState::Suspended => String::from_str("SUSPENDED"),
            VmState::Unknown => String::from_str("UNKNOWN"),
        }
    }
}

/// The detail-state mapping is total and stable: each of the four known
/// strings maps to its state, and every other string maps to `Unknown`.
pub proof fn lemma_state_mapping_total(s: Seq<char>)
    ensures
        s == "running"@ ==> spec_state_from_detail(s) == VmState::Running,
        s == "shut off"@ ==> spec_state_from_detail(s) == VmState::Stopped,
        s == "paused"@ ==> spec_state_from_detail(s) == VmState::Paused,
        s == "suspended"@ ==> spec_state_from_detail(s) == VmState::Suspended,
        s != "running"@ && s != "shut off"@ && s != "paused"@ && s != "suspended"@
            ==> spec_state_from_detail(s) == VmState::Unknown,
{
    reveal_strlit("running");
    reveal_strlit("shut off");
    reveal_strlit("paused");
    reveal_strlit("suspended");
    // the four known strings differ pairwise already in length
    assert("running"@.len() == 7);
    assert("shut off"@.len() == 8);
    assert("paused"@.len() == 6);
    assert("suspended"@.len() == 9);
}

/// The listing-context mapping is total and stable over the same fixed
/// vocabulary, with bare `shut` standing for `shut off`; every other
/// token maps to `Unknown`.
pub proof fn lemma_listing_mapping_total(s: Seq<char>)
    ensures
        s == "running"@ ==> spec_state_from_listing(s) == VmState::Running,
        s == "shut"@ ==> spec_state_from_listing(s) == VmState::Stopped,
        s == "paused"@ ==> spec_state_from_listing(s) == VmState::Paused,
        s == "suspended"@ ==> spec_state_from_listing(s) == VmState::Suspended,
        s != "running"@ && s != "shut"@ && s != "paused"@ && s != "suspended"@
            ==> spec_state_from_listing(s) == VmState::Unknown,
{
    reveal_strlit("running");
    reveal_strlit("shut");
    reveal_strlit("paused");
    reveal_strlit("suspended");
    // the four known tokens differ pairwise already in length
    assert("running"@.len() == 7);
    assert("shut"@.len() == 4);
    assert("paused"@.len() == 6);
    assert("suspended"@.len() == 9);
}

} // verus!
