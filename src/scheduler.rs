use vstd::prelude::*;
use crate::artifact::{dispatch_status, Artifact, ArtifactStatus, Rollout};
use crate::error::{GeneralError, Result};
use crate::rollout::run_completed;
use crate::instance::{lemma_tally_append_running, lemma_tally_bounded, numbers_view, tally, Instance, InstanceNumbers, InstanceStatus};

verus! {

/// Remaining headroom under the capacity bound.
pub open spec fn buffer_of(total: int, running: int, failed: int, done_clean: int, done_dirt: int) -> int {
    total - done_dirt - done_clean - failed - running
}

/// Remaining shortfall against the ready target.
pub open spec fn need_of(target: int, running: int, done_clean: int) -> int {
    target - done_clean - running
}

/// The signed number of instances to build (positive) or clean (negative): the smaller
/// of headroom and shortfall.
pub open spec fn deploy_delta(
    total: int,
    target: int,
    running: int,
    failed: int,
    done_clean: int,
    done_dirt: int,
) -> int {
    let buffer = buffer_of(total, running, failed, done_clean, done_dirt);
    let need = need_of(target, running, done_clean);
    if buffer <= need {
        buffer
    } else {
        need
    }
}

/// `deploy_delta` of an artifact over counters in the order of `tally`.
pub open spec fn delta_for(a: Artifact, n: (nat, nat, nat, nat)) -> int {
    deploy_delta(a.total as int, a.target as int, n.0 as int, n.1 as int, n.2 as int, n.3 as int)
}

/// What one dispatch does: start `n` build runs, start `n` clean runs, or nothing.
#[derive(Debug, Clone, Copy, PartialEq, Eq, Structural)]
pub enum Dispatch {
    Build(u64),
    Clean(u64),
    Nothing,
}

/// The dispatch that a signed deployment number asks for.
pub open spec fn dispatch_of(to_deploy: int) -> Dispatch {
    if to_deploy > 0 {
        Dispatch::Build(to_deploy as u64)
    } else if to_deploy < 0 {
        Dispatch::Clean((-to_deploy) as u64)
    } else {
        Dispatch::Nothing
    }
}

/// The rollout `r` is `o` after a dispatch at `now` that ended with `failure`.
pub open spec fn rollout_dispatched(o: Rollout, r: Rollout, failure: Option<GeneralError>, now: i64) -> bool {
    &&& r.stats == dispatch_status(failure)
    &&& r.last_sched == now
    &&& r.name == o.name
    &&& r.accounts == o.accounts
    &&& r.secrets == o.secrets
    &&& r.art_refs == o.art_refs
    &&& r.manifest == o.manifest
}

/// The error of an outcome, if it failed.
pub open spec fn failure_of(outcome: Result<Vec<Instance>>) -> Option<GeneralError> {
    match outcome {
        Ok(_) => None,
        Err(e) => Some(e),
    }
}

/// The instances that an outcome created: all of them when it went through, none otherwise.
pub open spec fn created_by(outcome: Result<Vec<Instance>>) -> Seq<Instance> {
    match outcome {
        Ok(v) => v@,
        Err(_) => Seq::empty(),
    }
}

/// Artifact `a` is `o` after `d` was dispatched at `now` with `outcome`: the rollout that
/// was dispatched carries the outcome's status and the time; nothing else changes.
pub open spec fn artifact_dispatched(o: Artifact, a: Artifact, d: Dispatch, outcome: Result<Vec<Instance>>, now: i64) -> bool {
    &&& a.id == o.id
    &&& a.total == o.total
    &&& a.target == o.target
    &&& a.tags == o.tags
    &&& match d {
        Dispatch::Build(_) => rollout_dispatched(o.build, a.build, failure_of(outcome), now)
            && a.clean == o.clean,
        Dispatch::Clean(_) => rollout_dispatched(o.clean, a.clean, failure_of(outcome), now)
            && a.build == o.build,
        Dispatch::Nothing => a.build == o.build && a.clean == o.clean,
    }
}

/// Counts the instances of an artifact by status: running, failed, succeeded and clean,
/// succeeded and dirty. Instances of unknown status are not counted.
pub fn statistic_instances(instances: &[Instance]) -> (r: Result<InstanceNumbers>)
    requires
        instances@.len() <= u32::MAX,
    ensures
        r matches Ok(n) && numbers_view(n) == tally(instances@),
{
    let mut running: u32 = 0;
    let mut fail: u32 = 0;
    let mut done_clean: u32 = 0;
    let mut done_dirt: u32 = 0;
    let mut i: usize = 0;
    while i < instances.len()
        invariant
            instances@.len() <= u32::MAX,
            i <= instances@.len(),
            (running as nat, fail as nat, done_clean as nat, done_dirt as nat) == tally(
                instances@.subrange(0, i as int),
            ),
        decreases instances@.len() - i,
    {
        proof {
            let s = instances@.subrange(0, i as int);
            lemma_tally_bounded(s);
            assert(instances@.subrange(0, i + 1).drop_last() =~= s);
        }
        match &instances[i].stat {
            InstanceStatus::Running => running += 1,
            InstanceStatus::Failed(_) => fail += 1,
            InstanceStatus::Succeeded => if !instances[i].dirt {
                done_clean += 1
            } else {
                done_dirt += 1
            },
            _ => {},
        }
        i += 1;
    }
    assert(instances@.subrange(0, i as int) =~= instances@);
    Ok(InstanceNumbers { running, fail, done_clean, done_dirt })
}

/// The signed number of instances to build or clean:
/// `min(total - done_dirt - done_clean - fail - running, target - done_clean - running)`.
pub fn numbers_to_deploy(artifact: &Artifact, numbers: &InstanceNumbers) -> (r: i64)
    ensures
        r == deploy_delta(
            artifact.total as int,
            artifact.target as int,
            numbers.running as int,
            numbers.fail as int,
            numbers.done_clean as int,
            numbers.done_dirt as int,
        ),
{
    let buffer: i64 = artifact.total as i64 - numbers.done_dirt as i64 - numbers.done_clean as i64
        - numbers.fail as i64 - numbers.running as i64;
    let need: i64 = artifact.target as i64 - numbers.done_clean as i64 - numbers.running as i64;
    if buffer <= need {
        buffer
    } else {
        need
    }
}

/// The dispatch that an artifact needs, given all of its instances.
pub fn plan(artifact: &Artifact, instances: &[Instance]) -> (r: Dispatch)
    requires
        instances@.len() <= u32::MAX,
    ensures
        r == dispatch_of(delta_for(*artifact, tally(instances@))),
{
    let numbers = match statistic_instances(instances) {
        Ok(n) => n,
        Err(_) => InstanceNumbers { running: 0, fail: 0, done_clean: 0, done_dirt: 0 },
    };
    let to_deploy = numbers_to_deploy(artifact, &numbers);
    if to_deploy > 0 {
        Dispatch::Build(to_deploy as u64)
    } else if to_deploy < 0 {
        Dispatch::Clean((-to_deploy) as u64)
    } else {
        Dispatch::Nothing
    }
}

/// Splits a dispatch outcome into the instances it created and the error it ended with.
fn multiplex_result(r: Result<Vec<Instance>>) -> (o: (Option<Vec<Instance>>, Option<GeneralError>))
    ensures
        match r {
            Ok(v) => o.0 == Some(v) && o.1 is None,
            Err(e) => o.0 is None && o.1 == Some(e),
        },
{
    match r {
        Ok(instances) => (Some(instances), None),
        Err(err) => (None, Some(err)),
    }
}

/// Folds the outcome of dispatch `d`, made at `now`, into the artifact, and returns the
/// instances it created, which are to be persisted.
pub fn record_dispatch(artifact: &mut Artifact, d: Dispatch, outcome: Result<Vec<Instance>>, now: i64) -> (r: Vec<Instance>)
    ensures
        artifact_dispatched(*old(artifact), *final(artifact), d, outcome, now),
        r@ == created_by(outcome),
{
    let (created, failure) = multiplex_result(outcome);
    match d {
        Dispatch::Build(_) => artifact.build.mark_dispatched(&failure, now),
        Dispatch::Clean(_) => artifact.clean.mark_dispatched(&failure, now),
        Dispatch::Nothing => {},
    }
    match created {
        Some(v) => v,
        None => Vec::new(),
    }
}

/// Relies on chrono::Utc::now and DateTime::timestamp: the current time, in seconds since
/// the Unix epoch. Nothing is known of the value.
#[verifier::external_body]
fn now_seconds() -> (r: i64) {
    chrono::Utc::now().timestamp()
}

/// `record_dispatch` at the current time.
pub fn process(artifact: &mut Artifact, d: Dispatch, outcome: Result<Vec<Instance>>) -> (r: Vec<Instance>)
    ensures
        exists|now: i64| artifact_dispatched(*old(artifact), *final(artifact), d, outcome, now),
        r@ == created_by(outcome),
{
    let now = now_seconds();
    record_dispatch(artifact, d, outcome, now)
}

/// Dequeuing an artifact a second time, when the only change since the first time is the
/// instances that its build dispatch created, asks for no further dispatch. (Not so after a
/// clean dispatch: its runs count as running instances, and the number falls further.)
pub proof fn lemma_second_dequeue_settles(
    a: Artifact,
    after: Artifact,
    s: Seq<Instance>,
    outcome: Result<Vec<Instance>>,
    now: i64,
)
    requires
        delta_for(a, tally(s)) >= 0,
        artifact_dispatched(a, after, dispatch_of(delta_for(a, tally(s))), outcome, now),
        run_completed(outcome, delta_for(a, tally(s)) as nat),
    ensures
        delta_for(after, tally(s + created_by(outcome))) == 0,
        dispatch_of(delta_for(after, tally(s + created_by(outcome)))) == Dispatch::Nothing,
{
    lemma_tally_append_running(s, created_by(outcome));
}

/// With a target above the capacity, a build dispatch that went through never closes the
/// shortfall: it is positive before and stays positive after, and the next dequeue asks
/// for nothing more. (A clean dispatch can lower it: its runs count as running.)
pub proof fn lemma_build_keeps_target_beyond_total(
    a: Artifact,
    after: Artifact,
    s: Seq<Instance>,
    outcome: Result<Vec<Instance>>,
    now: i64,
)
    requires
        a.target > a.total,
        delta_for(a, tally(s)) > 0,
        artifact_dispatched(a, after, dispatch_of(delta_for(a, tally(s))), outcome, now),
        run_completed(outcome, delta_for(a, tally(s)) as nat),
    ensures
        need_of(a.target as int, tally(s).0 as int, tally(s).2 as int) > 0,
        need_of(
            after.target as int,
            tally(s + created_by(outcome)).0 as int,
            tally(s + created_by(outcome)).2 as int,
        ) > 0,
        delta_for(after, tally(s + created_by(outcome))) == 0,
{
    lemma_tally_append_running(s, created_by(outcome));
}

/// After a build dispatch of `n` copies that went through at `now`, exactly the `n` created
/// instances are to be persisted, all running; the build rollout is running and was
/// scheduled at `now`; the clean rollout is untouched.
pub proof fn lemma_dispatch_round_trip(
    a: Artifact,
    after: Artifact,
    n: u64,
    outcome: Result<Vec<Instance>>,
    persisted: Seq<Instance>,
    now: i64,
)
    requires
        run_completed(outcome, n as nat),
        artifact_dispatched(a, after, Dispatch::Build(n), outcome, now),
        persisted == created_by(outcome),
    ensures
        persisted.len() == n,
        forall|k: int| 0 <= k < persisted.len() ==> (#[trigger] persisted[k]).stat is Running,
        after.build.stats == ArtifactStatus::Running,
        after.build.last_sched == now,
        after.clean == a.clean,
{
}

/// A target above the capacity is never reached: while the ready and running instances
/// stay within the capacity, the shortfall stays positive; once they fill it, the number
/// to deploy is the headroom, which is not positive.
pub proof fn lemma_target_beyond_total(
    total: int,
    target: int,
    running: nat,
    failed: nat,
    done_clean: nat,
    done_dirt: nat,
)
    requires
        target > total,
        done_clean + running <= total,
    ensures
        need_of(target, running as int, done_clean as int) > 0,
        done_clean + running == total ==> deploy_delta(
            total,
            target,
            running as int,
            failed as int,
            done_clean as int,
            done_dirt as int,
        ) == buffer_of(total, running as int, failed as int, done_clean as int, done_dirt as int)
            && buffer_of(total, running as int, failed as int, done_clean as int, done_dirt as int)
            <= 0,
{
}

} // verus!
