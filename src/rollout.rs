use vstd::prelude::*;
use crate::error::Result;
use crate::instance::Instance;

verus! {

/// One dispatch of a rollout in progress: `copies` runs are to be started for artifact
/// `art_id`; `started` records those started so far.
pub struct RunSession {
    pub art_id: String,
    pub copies: u64,
    pub started: Vec<Instance>,
}

/// What the outside world reports back to a session.
pub enum RunEvent {
    /// The rollout's secrets, accounts and manifest were applied, or how that failed.
    Ready(Result<()>),
    /// Starting the run of the fresh instance with the given id gave a run handle, or failed.
    Started(String, Result<String>),
}

/// What the session asks for next.
pub enum RunAction {
    /// Start one more run, with a fresh instance id.
    StartNext,
    /// The dispatch is over, with the instances it created or the first error.
    Finish(Result<Vec<Instance>>),
}

/// `i` is the record of the run `run_name` just started for instance `id` of `art_id`.
pub open spec fn is_started_record(i: Instance, id: String, art_id: String, run_name: String) -> bool {
    &&& i.id == id
    &&& i.art_id == art_id
    &&& i.run_name == run_name
    &&& i.stat is Running
    &&& !i.dirt
    &&& i.results is None
}

/// Every instance is a just started, clean, running record of `art_id`.
pub open spec fn all_fresh(v: Seq<Instance>, art_id: String) -> bool {
    forall|k: int|
        0 <= k < v.len() ==> {
            let i = #[trigger] v[k];
            i.art_id == art_id && i.stat is Running && !i.dirt && i.results is None
        }
}

/// A dispatch of `n` copies that went through: exactly `n` instances, all running.
pub open spec fn run_completed(outcome: Result<Vec<Instance>>, n: nat) -> bool {
    outcome matches Ok(v) && v@.len() == n && forall|k: int|
        0 <= k < v@.len() ==> (#[trigger] v@[k]).stat is Running
}

impl RunSession {
    /// A session that has started nothing yet.
    pub fn new(art_id: String, copies: u64) -> (r: RunSession)
        ensures
            r.art_id == art_id,
            r.copies == copies,
            r.started@.len() == 0,
            r.wf(),
    {
        RunSession { art_id, copies, started: Vec::new() }
    }

    /// No more runs started than asked for, each a fresh record of the artifact.
    pub open spec fn wf(&self) -> bool {
        self.started@.len() <= self.copies && all_fresh(self.started@, self.art_id)
    }
}

fn take_started(s: &mut RunSession) -> (v: Vec<Instance>)
    ensures
        v@ == old(s).started@,
        final(s).started@.len() == 0,
        final(s).art_id == old(s).art_id,
        final(s).copies == old(s).copies,
{
    let mut v: Vec<Instance> = Vec::new();
    std::mem::swap(&mut v, &mut s.started);
    v
}

/// Moves a rollout dispatch on by one event. Preparation must succeed before any run is
/// started; runs are started one at a time until `copies` have started; the first failure
/// ends the dispatch with that error, keeping the runs started so far in the session.
pub fn rollout_step(s: &mut RunSession, ev: RunEvent) -> (a: RunAction)
    requires
        old(s).wf(),
        ev is Started ==> old(s).started@.len() < old(s).copies,
    ensures
        final(s).art_id == old(s).art_id,
        final(s).copies == old(s).copies,
        final(s).wf(),
        match ev {
            RunEvent::Ready(Err(e)) => a == RunAction::Finish(Err(e)) && final(s).started
                == old(s).started,
            RunEvent::Ready(Ok(_)) => if old(s).started@.len() < old(s).copies {
                a is StartNext && final(s).started == old(s).started
            } else {
                a matches RunAction::Finish(Ok(v)) && v@ == old(s).started@
            },
            RunEvent::Started(_, Err(e)) => a == RunAction::Finish(Err(e)) && final(s).started
                == old(s).started,
            RunEvent::Started(id, Ok(h)) => {
                let n = old(s).started@.len() + 1;
                if n < old(s).copies {
                    &&& a is StartNext
                    &&& final(s).started@.len() == n
                    &&& final(s).started@.subrange(0, n - 1) == old(s).started@
                    &&& is_started_record(final(s).started@[n - 1], id, old(s).art_id, h)
                } else {
                    a matches RunAction::Finish(Ok(v)) && v@.len() == n && v@.subrange(0, n - 1)
                        == old(s).started@ && is_started_record(v@[n - 1], id, old(s).art_id, h)
                }
            },
        },
        a matches RunAction::Finish(Ok(v)) ==> run_completed(Ok(v), old(s).copies as nat)
            && all_fresh(v@, old(s).art_id),
{
    match ev {
        RunEvent::Ready(Err(e)) => RunAction::Finish(Err(e)),
        RunEvent::Ready(Ok(())) => {
            if (s.started.len() as u64) < s.copies {
                RunAction::StartNext
            } else {
                RunAction::Finish(Ok(take_started(s)))
            }
        },
        RunEvent::Started(_, Err(e)) => RunAction::Finish(Err(e)),
        RunEvent::Started(id, Ok(handle)) => {
            let ghost before = s.started@;
            let record = Instance::started(id, s.art_id.clone(), handle);
            s.started.push(record);
            assert(s.started@.subrange(0, before.len() as int) =~= before);
            if (s.started.len() as u64) < s.copies {
                RunAction::StartNext
            } else {
                RunAction::Finish(Ok(take_started(s)))
            }
        },
    }
}

} // verus!
