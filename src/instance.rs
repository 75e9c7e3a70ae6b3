use std::collections::HashMap;
use vstd::prelude::*;
use crate::text::{joined, same_text};

verus! {

/// One concrete execution of a rollout, tracked by the handle of its workflow run.
#[derive(Debug, Default, PartialEq, Clone)]
pub struct Instance {
    pub id: String,
    pub art_id: String,
    pub run_name: String,
    /// Set once the instance was consumed downstream; it must be cleaned before reuse.
    pub dirt: bool,
    pub stat: InstanceStatus,
    pub results: Option<HashMap<String, String>>,
}

#[derive(Debug, PartialEq, Clone)]
pub enum InstanceStatus {
    Unknown,
    Running,
    Failed(String),
    Succeeded,
}

/// The counters that the deployment arithmetic reads, folded from instance statuses.
#[derive(Debug, Clone, Copy, PartialEq, Eq)]
pub struct InstanceNumbers {
    pub running: u32,
    pub fail: u32,
    pub done_clean: u32,
    pub done_dirt: u32,
}

/// What a status text reported by the workflow runner means: `Running`, `Succeeded`,
/// the empty text (not known yet), or any other text, which is a failure reason.
pub open spec fn parsed_as(s: Seq<char>, r: InstanceStatus) -> bool {
    if s == "Running"@ {
        r is Running
    } else if s == "Succeeded"@ {
        r is Succeeded
    } else if s.len() == 0 {
        r is Unknown
    } else {
        r matches InstanceStatus::Failed(m) && m@ == s
    }
}

/// The four counters (running, failed, succeeded-clean, succeeded-dirty) of a sequence of
/// instances; an instance of unknown status is not counted.
pub open spec fn tally(s: Seq<Instance>) -> (nat, nat, nat, nat)
    decreases s.len(),
{
    if s.len() == 0 {
        (0, 0, 0, 0)
    } else {
        let t = tally(s.drop_last());
        let i = s.last();
        match i.stat {
            InstanceStatus::Running => (t.0 + 1, t.1, t.2, t.3),
            InstanceStatus::Failed(_) => (t.0, t.1 + 1, t.2, t.3),
            InstanceStatus::Succeeded => if i.dirt {
                (t.0, t.1, t.2, t.3 + 1)
            } else {
                (t.0, t.1, t.2 + 1, t.3)
            },
            InstanceStatus::Unknown => t,
        }
    }
}

/// The counters held by `n`, in the order of `tally`.
pub open spec fn numbers_view(n: InstanceNumbers) -> (nat, nat, nat, nat) {
    (n.running as nat, n.fail as nat, n.done_clean as nat, n.done_dirt as nat)
}

/// Each counter of `tally` is at most the number of instances.
pub proof fn lemma_tally_bounded(s: Seq<Instance>)
    ensures
        tally(s).0 + tally(s).1 + tally(s).2 + tally(s).3 <= s.len(),
    decreases s.len(),
{
    if s.len() > 0 {
        lemma_tally_bounded(s.drop_last());
    }
}

/// Appending instances that are all running adds their number to the running counter
/// and leaves the other counters as they were.
pub proof fn lemma_tally_append_running(s: Seq<Instance>, new: Seq<Instance>)
    requires
        forall|k: int| 0 <= k < new.len() ==> (#[trigger] new[k]).stat is Running,
    ensures
        tally(s + new) == (tally(s).0 + new.len(), tally(s).1, tally(s).2, tally(s).3),
    decreases new.len(),
{
    if new.len() == 0 {
        assert(s + new =~= s);
    } else {
        let shorter = new.drop_last();
        lemma_tally_append_running(s, shorter);
        assert((s + new).drop_last() =~= s + shorter);
        assert((s + new).last() == new[new.len() - 1]);
    }
}

impl Default for InstanceStatus {
    fn default() -> (r: Self)
        ensures
            r is Unknown,
    {
        InstanceStatus::Unknown
    }
}

impl InstanceStatus {
    /// Reads a status text reported by the workflow runner.
    pub fn parse(value: &str) -> (r: InstanceStatus)
        ensures
            parsed_as(value@, r),
    {
        proof {
            reveal_strlit("Running");
            reveal_strlit("Succeeded");
        }
        if same_text(value, "Running") {
            InstanceStatus::Running
        } else if same_text(value, "Succeeded") {
            InstanceStatus::Succeeded
        } else if value.unicode_len() == 0 {
            InstanceStatus::Unknown
        } else {
            InstanceStatus::Failed(value.to_owned())
        }
    }

    /// The status as text: its name, or `Fail: ` followed by the reason of a failure.
    pub fn to_string(&self) -> (r: String)
        ensures
            self is Unknown ==> r@ == "Unknown"@,
            self is Running ==> r@ == "Running"@,
            self is Succeeded ==> r@ == "Succeeded"@,
            self matches InstanceStatus::Failed(m) ==> r@ == "Fail: "@ + m@,
    {
        match self {
            InstanceStatus::Unknown => String::from_str("Unknown"),
            InstanceStatus::Running => String::from_str("Running"),
            InstanceStatus::Failed(reason) => joined("Fail: ", reason.as_str()),
            InstanceStatus::Succeeded => String::from_str("Succeeded"),
        }
    }

    /// A copy of the status.
    pub fn duplicate(&self) -> (r: InstanceStatus)
        ensures
            r == *self,
    {
        match self {
            InstanceStatus::Unknown => InstanceStatus::Unknown,
            InstanceStatus::Running => InstanceStatus::Running,
            InstanceStatus::Failed(reason) => InstanceStatus::Failed(reason.clone()),
            InstanceStatus::Succeeded => InstanceStatus::Succeeded,
        }
    }

    pub fn is_failed(&self) -> (r: bool)
        ensures
            r == self is Failed,
    {
        matches!(self, InstanceStatus::Failed(_))
    }
}

impl Instance {
    /// The record of a workflow run that was just started: running, clean, no results yet.
    pub fn started(id: String, art_id: String, run_name: String) -> (r: Instance)
        ensures
            r.id == id,
            r.art_id == art_id,
            r.run_name == run_name,
            !r.dirt,
            r.stat is Running,
            r.results is None,
    {
        Instance { id, art_id, run_name, dirt: false, stat: InstanceStatus::Running, results: None }
    }
}

} // verus!
