use vstd::prelude::*;
use crate::artifact::{Artifact, ArtifactStatus, Rollout};
use crate::instance::{parsed_as, tally, Instance, InstanceStatus};
use crate::scheduler::statistic_instances;
use crate::text::has_prefix;

verus! {

/// Whether a run belongs to the build rollout: its handle starts with `build-`, the prefix
/// of the build pipeline's name.
pub open spec fn is_build_run(run: Seq<char>) -> bool {
    "build-"@.len() <= run.len() && run.subrange(0, "build-"@.len() as int) == "build-"@
}

/// The statuses of the instances of one partition (build when `build`, clean otherwise),
/// in order.
pub open spec fn partition(s: Seq<Instance>, build: bool) -> Seq<InstanceStatus>
    decreases s.len(),
{
    if s.len() == 0 {
        Seq::empty()
    } else {
        let rest = partition(s.drop_last(), build);
        if is_build_run(s.last().run_name@) == build {
            rest.push(s.last().stat)
        } else {
            rest
        }
    }
}

/// The status that the instances of a partition give their rollout: failed if any failed;
/// succeeded if there are some and all succeeded; otherwise none, and the rollout keeps
/// its status.
pub open spec fn verdict(s: Seq<InstanceStatus>) -> Option<ArtifactStatus> {
    if exists|i: int| 0 <= i < s.len() && (#[trigger] s[i]) is Failed {
        Some(ArtifactStatus::Failed)
    } else if s.len() > 0 && forall|i: int| 0 <= i < s.len() ==> (#[trigger] s[i]) is Succeeded {
        Some(ArtifactStatus::Succeeded)
    } else {
        None
    }
}

/// The status a rollout carries after a sync pass over the statuses of its partition.
pub open spec fn settled(current: ArtifactStatus, s: Seq<InstanceStatus>) -> ArtifactStatus {
    match verdict(s) {
        Some(v) => v,
        None => current,
    }
}

/// A rollout stalled in a failure or on an unresolved dependency.
pub open spec fn stalled(s: ArtifactStatus) -> bool {
    s == ArtifactStatus::Failed || s == ArtifactStatus::PendingArtRef || s == ArtifactStatus::PendingAccount
}

/// Limits on how eagerly stalled artifacts are dispatched again.
#[derive(Debug, Clone, Copy, PartialEq, Eq)]
pub struct ReschedulePolicy {
    /// The least time, in seconds, between two dispatch attempts of a rollout.
    pub backoff_secs: u32,
    /// The share of failed instances, in percent, above which an artifact is left for a
    /// person to look at.
    pub max_failure_percent: u32,
}

/// The rollout is stalled and its last dispatch lies at least the backoff before `now`.
pub open spec fn due(r: Rollout, backoff: int, now: int) -> bool {
    stalled(r.stats) && now - r.last_sched >= backoff
}

/// More than `max_percent` percent of `count` instances failed.
pub open spec fn too_many_failures(failed: nat, count: nat, max_percent: nat) -> bool {
    failed * 100 > max_percent * count
}

/// The failures among `s` that came after the user last updated the artifact, when
/// `failures_at_update` of them had already failed.
pub open spec fn failures_since(s: Seq<Instance>, failures_at_update: nat) -> nat {
    if tally(s).1 > failures_at_update {
        (tally(s).1 - failures_at_update) as nat
    } else {
        0
    }
}

/// Whether an artifact with instances `s` is to be enqueued again at `now`. A high share of
/// failures blocks it until the user updates the artifact: only failures since then count.
pub open spec fn reschedule_due(
    p: ReschedulePolicy,
    a: Artifact,
    s: Seq<Instance>,
    failures_at_update: nat,
    now: int,
) -> bool {
    &&& !too_many_failures(failures_since(s, failures_at_update), s.len(), p.max_failure_percent as nat)
    &&& (due(a.build, p.backoff_secs as int, now) || due(a.clean, p.backoff_secs as int, now))
}

/// What a status sync pass found for one artifact.
pub struct SyncOutcome {
    /// The artifact's instances with their polled statuses, in the order given.
    pub instances: Vec<Instance>,
    /// The new status of the build rollout, if it changes.
    pub build: Option<ArtifactStatus>,
    /// The new status of the clean rollout, if it changes.
    pub clean: Option<ArtifactStatus>,
}

pub fn is_build_run_name(run_name: &str) -> (r: bool)
    ensures
        r == is_build_run(run_name@),
{
    has_prefix(run_name, "build-")
}

/// The status that the statuses of a partition give their rollout, if any.
pub fn rollout_verdict(statuses: &Vec<InstanceStatus>) -> (r: Option<ArtifactStatus>)
    ensures
        r == verdict(statuses@),
{
    let mut any_failed = false;
    let mut all_succeeded = true;
    let mut i: usize = 0;
    while i < statuses.len()
        invariant
            i <= statuses@.len(),
            any_failed == exists|j: int| 0 <= j < i && (#[trigger] statuses@[j]) is Failed,
            all_succeeded == forall|j: int| 0 <= j < i ==> (#[trigger] statuses@[j]) is Succeeded,
        decreases statuses@.len() - i,
    {
        match &statuses[i] {
            InstanceStatus::Failed(_) => {
                any_failed = true;
                all_succeeded = false;
            },
            InstanceStatus::Succeeded => {},
            _ => {
                all_succeeded = false;
            },
        }
        i += 1;
    }
    if any_failed {
        Some(ArtifactStatus::Failed)
    } else if statuses.len() > 0 && all_succeeded {
        Some(ArtifactStatus::Succeeded)
    } else {
        None
    }
}

/// The status a rollout carries after a sync pass over the statuses of its partition.
pub fn settle_rollout(current: ArtifactStatus, statuses: &Vec<InstanceStatus>) -> (r: ArtifactStatus)
    ensures
        r == settled(current, statuses@),
{
    match rollout_verdict(statuses) {
        Some(v) => v,
        None => current,
    }
}

/// Folds the statuses polled from the workflow runner into an artifact's instances
/// (`polled[i]` is the status text of the run of `instances[i]`), and gives each rollout
/// the status that its partition of instances asks for.
pub fn sync_instances(instances: Vec<Instance>, polled: &Vec<String>) -> (r: SyncOutcome)
    requires
        polled@.len() == instances@.len(),
    ensures
        r.instances@.len() == instances@.len(),
        forall|i: int|
            0 <= i < instances@.len() ==> {
                let (n, o) = (#[trigger] r.instances@[i], instances@[i]);
                &&& parsed_as(polled@[i]@, n.stat)
                &&& n.id == o.id
                &&& n.art_id == o.art_id
                &&& n.run_name == o.run_name
                &&& n.dirt == o.dirt
                &&& n.results == o.results
            },
        r.build == verdict(partition(r.instances@, true)),
        r.clean == verdict(partition(r.instances@, false)),
{
    let ghost orig = instances@;
    let mut rest = instances;
    let mut done: Vec<Instance> = Vec::new();
    let mut build_statuses: Vec<InstanceStatus> = Vec::new();
    let mut clean_statuses: Vec<InstanceStatus> = Vec::new();
    while rest.len() > 0
        invariant
            polled@.len() == orig.len(),
            done@.len() + rest@.len() == orig.len(),
            rest@ == orig.subrange(done@.len() as int, orig.len() as int),
            forall|i: int|
                0 <= i < done@.len() ==> {
                    let (n, o) = (#[trigger] done@[i], orig[i]);
                    &&& parsed_as(polled@[i]@, n.stat)
                    &&& n.id == o.id
                    &&& n.art_id == o.art_id
                    &&& n.run_name == o.run_name
                    &&& n.dirt == o.dirt
                    &&& n.results == o.results
                },
            build_statuses@ == partition(done@, true),
            clean_statuses@ == partition(done@, false),
        decreases rest@.len(),
    {
        let ghost before = done@;
        let k = done.len();
        let mut inst = rest.remove(0);
        inst.stat = InstanceStatus::parse(polled[k].as_str());
        if is_build_run_name(inst.run_name.as_str()) {
            build_statuses.push(inst.stat.duplicate());
        } else {
            clean_statuses.push(inst.stat.duplicate());
        }
        done.push(inst);
        assert(done@.drop_last() =~= before);
    }
    let build = rollout_verdict(&build_statuses);
    let clean = rollout_verdict(&clean_statuses);
    SyncOutcome { instances: done, build, clean }
}

/// Whether a stalled artifact is to be enqueued again at `now` (seconds since the Unix
/// epoch): one of its rollouts is stalled and was last dispatched at least the backoff ago,
/// and no more than the allowed share of its instances failed since the user last updated
/// it (`failures_at_update` is the number of failed instances at that update).
pub fn needs_reschedule(
    policy: &ReschedulePolicy,
    artifact: &Artifact,
    instances: &[Instance],
    failures_at_update: u32,
    now: i64,
) -> (r: bool)
    requires
        instances@.len() <= u32::MAX,
    ensures
        r == reschedule_due(*policy, *artifact, instances@, failures_at_update as nat, now as int),
{
    let all_failed: u64 = match statistic_instances(instances) {
        Ok(n) => n.fail as u64,
        Err(_) => 0,
    };
    let failed: u64 = if all_failed > failures_at_update as u64 {
        all_failed - failures_at_update as u64
    } else {
        0
    };
    let count = instances.len() as u64;
    proof {
        let (p, c) = (policy.max_failure_percent as int, count as int);
        assert(0 <= p <= u32::MAX && 0 <= c <= u32::MAX ==> p * c <= 0xffff_fffe_0000_0001int)
            by (nonlinear_arith);
    }
    if failed * 100 > policy.max_failure_percent as u64 * count {
        return false;
    }
    let backoff = policy.backoff_secs as i128;
    let build_due = artifact.build.stats.is_stalled()
        && now as i128 - artifact.build.last_sched as i128 >= backoff;
    let clean_due = artifact.clean.stats.is_stalled()
        && now as i128 - artifact.clean.last_sched as i128 >= backoff;
    build_due || clean_due
}

/// The reconciliation fold: a failed instance makes its rollout failed, even beside
/// succeeded ones; a non-empty partition whose instances all succeeded makes it
/// succeeded; an empty partition never changes it.
pub proof fn lemma_reconciliation_fold(current: ArtifactStatus, s: Seq<InstanceStatus>)
    ensures
        (exists|i: int| 0 <= i < s.len() && (#[trigger] s[i]) is Failed) ==> settled(current, s)
            == ArtifactStatus::Failed,
        (s.len() > 0 && forall|i: int| 0 <= i < s.len() ==> (#[trigger] s[i]) is Succeeded)
            ==> settled(current, s) == ArtifactStatus::Succeeded,
        s.len() == 0 ==> settled(current, s) == current,
{
    if s.len() > 0 && forall|i: int| 0 <= i < s.len() ==> (#[trigger] s[i]) is Succeeded {
        assert(!(s[0] is Failed));
    }
}

} // verus!
