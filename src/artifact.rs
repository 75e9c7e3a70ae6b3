use std::collections::HashMap;
use vstd::prelude::*;
use vstd::string::*;
use crate::error::{GeneralError, Result};
use crate::manifest::{
    Manifest, Metadata, Param, ParamValue, Pipeline, PipelineSpec, Secret, Task, TaskDef,
    TaskManifest, TaskRef, TEKTON_DEV_V1,
};
use crate::text::joined;

verus! {

/// The namespace of the workflow engine in which all runs are started.
pub const DEFAULT_NAMESPACE: &'static str = "train";

/// The schedule time of a rollout that was never dispatched: 2012-12-12T12:12:12Z, in
/// seconds since the Unix epoch.
pub const NEVER_SCHEDULED: i64 = 1355314332;

/// An artifact as a user submits it.
#[derive(Debug, Default, PartialEq, Clone)]
pub struct ArtifactRequest {
    pub name: String,
    pub total: u32,
    pub target: u32,
    pub refs: Option<Vec<ArtifactRef>>,
    pub build: DeployUnit,
    pub clean: DeployUnit,
}

/// The declared tasks and dependencies of one direction (build or clean).
#[derive(Debug, Default, PartialEq, Clone)]
pub struct DeployUnit {
    pub params: Option<Vec<Param>>,
    pub tasks: Vec<TaskManifest>,
    pub results: Option<Vec<ParamValue>>,
    pub secrets: Option<Vec<SecretRef>>,
    pub accounts: Option<Vec<AccountRef>>,
}

#[derive(Debug, Default, PartialEq, Clone)]
pub struct SecretRef {
    pub name: String,
}

#[derive(Debug, Default, PartialEq, Clone)]
pub struct AccountRef {
    pub name: String,
}

#[derive(Debug, Default, PartialEq, Clone)]
pub struct ArtifactRef {
    pub name: String,
}

/// A named workload specification kept rolled out to `target` ready instances, with at
/// most `total` instances in existence.
#[derive(Debug, PartialEq, Clone)]
pub struct Artifact {
    pub id: String,
    pub tags: HashMap<String, String>,
    pub total: u32,
    pub target: u32,
    pub build: Rollout,
    pub clean: Rollout,
}

/// One direction of an artifact (build or clean), with the status of its last dispatch.
#[derive(Debug, PartialEq, Clone)]
pub struct Rollout {
    pub name: String,
    pub stats: ArtifactStatus,
    /// Seconds since the Unix epoch of the latest dispatch attempt.
    pub last_sched: i64,
    pub accounts: Vec<AccountRef>,
    pub secrets: Vec<SecretRef>,
    pub art_refs: Vec<ArtifactRef>,
    pub manifest: String,
}

#[derive(Debug, Clone, Copy, PartialEq, Eq, Structural)]
pub enum ArtifactStatus {
    NotScheduled,
    Running,
    PendingAccount,
    PendingArtRef,
    Failed,
    Succeeded,
}

/// The text under which a rollout status is stored.
pub open spec fn status_text(s: ArtifactStatus) -> Seq<char> {
    match s {
        ArtifactStatus::NotScheduled => "NotScheduled"@,
        ArtifactStatus::Running => "Running"@,
        ArtifactStatus::PendingAccount => "PendingAccount"@,
        ArtifactStatus::PendingArtRef => "PendingArtRef"@,
        ArtifactStatus::Failed => "Failed"@,
        ArtifactStatus::Succeeded => "Succeeded"@,
    }
}

/// The status that a stored text names; any text that names none reads as not scheduled.
pub open spec fn status_from_text(t: Seq<char>) -> ArtifactStatus {
    if t == "Running"@ {
        ArtifactStatus::Running
    } else if t == "PendingAccount"@ {
        ArtifactStatus::PendingAccount
    } else if t == "PendingArtRef"@ {
        ArtifactStatus::PendingArtRef
    } else if t == "Failed"@ {
        ArtifactStatus::Failed
    } else if t == "Succeeded"@ {
        ArtifactStatus::Succeeded
    } else {
        ArtifactStatus::NotScheduled
    }
}

/// The status a rollout takes after a dispatch: running when it went through, else
/// what the failure says (an unresolved artifact reference or account, or a plain failure).
pub open spec fn dispatch_status(failure: Option<GeneralError>) -> ArtifactStatus {
    match failure {
        None => ArtifactStatus::Running,
        Some(GeneralError::PendingArtRef) => ArtifactStatus::PendingArtRef,
        Some(GeneralError::PendingAccount) => ArtifactStatus::PendingAccount,
        Some(_) => ArtifactStatus::Failed,
    }
}

/// A stored status reads back as itself.
pub proof fn lemma_status_text_round_trip(s: ArtifactStatus)
    ensures
        status_from_text(status_text(s)) == s,
{
    reveal_strlit("NotScheduled");
    reveal_strlit("Running");
    reveal_strlit("PendingAccount");
    reveal_strlit("PendingArtRef");
    reveal_strlit("Failed");
    reveal_strlit("Succeeded");
    assert("NotScheduled"@.len() == 12);
    assert("Running"@.len() == 7);
    assert("PendingAccount"@.len() == 14);
    assert("PendingArtRef"@.len() == 13);
    assert("Failed"@.len() == 6);
    assert("Succeeded"@.len() == 9);
}

impl Default for ArtifactStatus {
    fn default() -> (r: Self)
        ensures
            r == ArtifactStatus::NotScheduled,
    {
        ArtifactStatus::NotScheduled
    }
}

impl ArtifactStatus {
    pub fn to_string(&self) -> (r: String)
        ensures
            r@ == status_text(*self),
    {
        match self {
            ArtifactStatus::NotScheduled => String::from_str("NotScheduled"),
            ArtifactStatus::Running => String::from_str("Running"),
            ArtifactStatus::PendingAccount => String::from_str("PendingAccount"),
            ArtifactStatus::PendingArtRef => String::from_str("PendingArtRef"),
            ArtifactStatus::Failed => String::from_str("Failed"),
            ArtifactStatus::Succeeded => String::from_str("Succeeded"),
        }
    }

    /// Reads a stored status text.
    pub fn parse(value: &str) -> (r: ArtifactStatus)
        ensures
            r == status_from_text(value@),
    {
        if crate::text::same_text(value, "Running") {
            ArtifactStatus::Running
        } else if crate::text::same_text(value, "PendingAccount") {
            ArtifactStatus::PendingAccount
        } else if crate::text::same_text(value, "PendingArtRef") {
            ArtifactStatus::PendingArtRef
        } else if crate::text::same_text(value, "Failed") {
            ArtifactStatus::Failed
        } else if crate::text::same_text(value, "Succeeded") {
            ArtifactStatus::Succeeded
        } else {
            ArtifactStatus::NotScheduled
        }
    }

    /// Whether the status asks for another dispatch: a failure or an unresolved dependency.
    pub fn is_stalled(&self) -> (r: bool)
        ensures
            r == (*self == ArtifactStatus::Failed || *self == ArtifactStatus::PendingArtRef
                || *self == ArtifactStatus::PendingAccount),
    {
        match self {
            ArtifactStatus::Failed | ArtifactStatus::PendingArtRef
            | ArtifactStatus::PendingAccount => true,
            _ => false,
        }
    }
}

/// A rollout that was never dispatched.
fn fresh_rollout(
    name: String,
    accounts: Vec<AccountRef>,
    secrets: Vec<SecretRef>,
    art_refs: Vec<ArtifactRef>,
    manifest: String,
) -> (r: Rollout)
    ensures
        r.name == name,
        r.stats == ArtifactStatus::NotScheduled,
        r.last_sched == NEVER_SCHEDULED,
        r.accounts == accounts,
        r.secrets == secrets,
        r.art_refs == art_refs,
        r.manifest == manifest,
{
    Rollout {
        name,
        stats: ArtifactStatus::NotScheduled,
        last_sched: NEVER_SCHEDULED,
        accounts,
        secrets,
        art_refs,
        manifest,
    }
}

impl Rollout {
    /// Records a dispatch attempt made at `now`: the status follows its outcome.
    pub fn mark_dispatched(&mut self, failure: &Option<GeneralError>, now: i64)
        ensures
            final(self).stats == dispatch_status(*failure),
            final(self).last_sched == now,
            final(self).name == old(self).name,
            final(self).accounts == old(self).accounts,
            final(self).secrets == old(self).secrets,
            final(self).art_refs == old(self).art_refs,
            final(self).manifest == old(self).manifest,
    {
        self.stats = match failure {
            None => ArtifactStatus::Running,
            Some(GeneralError::PendingArtRef) => ArtifactStatus::PendingArtRef,
            Some(GeneralError::PendingAccount) => ArtifactStatus::PendingAccount,
            Some(_) => ArtifactStatus::Failed,
        };
        self.last_sched = now;
    }
}

impl Artifact {
    /// An artifact with no dependencies and empty manifests, never dispatched.
    pub fn new(art_id: &str, total: u32, target: u32) -> (r: Artifact)
        ensures
            r.id@ == art_id@,
            r.total == total,
            r.target == target,
            r.build.name@ == "build-"@ + art_id@,
            r.clean.name@ == "clean-"@ + art_id@,
            r.build.stats == ArtifactStatus::NotScheduled,
            r.clean.stats == ArtifactStatus::NotScheduled,
            r.build.last_sched == NEVER_SCHEDULED,
            r.clean.last_sched == NEVER_SCHEDULED,
            r.build.accounts@.len() == 0 && r.build.secrets@.len() == 0
                && r.build.art_refs@.len() == 0 && r.build.manifest@.len() == 0,
            r.clean.accounts@.len() == 0 && r.clean.secrets@.len() == 0
                && r.clean.art_refs@.len() == 0 && r.clean.manifest@.len() == 0,
    {
        Artifact {
            id: art_id.to_owned(),
            tags: HashMap::new(),
            total,
            target,
            build: fresh_rollout(
                joined("build-", art_id),
                Vec::new(),
                Vec::new(),
                Vec::new(),
                String::new(),
            ),
            clean: fresh_rollout(
                joined("clean-", art_id),
                Vec::new(),
                Vec::new(),
                Vec::new(),
                String::new(),
            ),
        }
    }
}

/// The items of an optional list; none when it is absent.
pub open spec fn opt_seq<T>(o: Option<Vec<T>>) -> Seq<T> {
    match o {
        Some(v) => v@,
        None => Seq::empty(),
    }
}

/// `n` is task `o` renamed to `prefix`, a dash, then its own name.
pub open spec fn renamed_task(prefix: Seq<char>, o: TaskManifest, n: TaskManifest) -> bool {
    &&& n.name@ == prefix + "-"@ + o.name@
    &&& n.spec == o.spec
    &&& n.param_values == o.param_values
    &&& n.run_after == o.run_after
}

/// `d` is the pipeline's reference to the declared task `t`.
pub open spec fn task_def_of(t: TaskManifest, d: TaskDef) -> bool {
    &&& d.name == t.name
    &&& d.task_ref.name == t.name
    &&& d.run_after == t.run_after
    &&& d.params == t.param_values
}

/// `d` is the task document of the declared task `t`.
pub open spec fn task_doc_of(t: TaskManifest, d: Task) -> bool {
    &&& d.api_version@ == TEKTON_DEV_V1@
    &&& d.kind@ == "Task"@
    &&& d.metadata.name == t.name
    &&& d.spec == t.spec
}

/// `m` is the manifest of pipeline `name` over the declared `tasks`, in their order, with
/// the pipeline parameters and results listed only where there are any.
pub open spec fn manifest_of(
    name: Seq<char>,
    tasks: Seq<TaskManifest>,
    params: Seq<Param>,
    results: Seq<ParamValue>,
    m: Manifest,
) -> bool {
    &&& m.pipeline.api_version@ == TEKTON_DEV_V1@
    &&& m.pipeline.kind@ == "Pipeline"@
    &&& m.pipeline.metadata.name@ == name
    &&& (if params.len() > 0 {
        m.pipeline.spec.params matches Some(p) && p@ == params
    } else {
        m.pipeline.spec.params is None
    })
    &&& (if results.len() > 0 {
        m.pipeline.spec.results matches Some(p) && p@ == results
    } else {
        m.pipeline.spec.results is None
    })
    &&& m.pipeline.spec.tasks@.len() == tasks.len()
    &&& m.tasks@.len() == tasks.len()
    &&& forall|i: int|
        0 <= i < tasks.len() ==> task_def_of(tasks[i], #[trigger] m.pipeline.spec.tasks@[i])
            && task_doc_of(tasks[i], m.tasks@[i])
}

fn or_empty<T>(o: Option<Vec<T>>) -> (r: Vec<T>)
    ensures
        r@ == opt_seq(o),
{
    match o {
        Some(v) => v,
        None => Vec::new(),
    }
}

/// The manifest of pipeline `name`: a task document for each declared task, and a
/// pipeline that references them in order.
pub fn to_manifest(
    name: &str,
    tasks: Vec<TaskManifest>,
    params: Vec<Param>,
    results: Vec<ParamValue>,
) -> (r: Manifest)
    ensures
        manifest_of(name@, tasks@, params@, results@, r),
{
    let ghost orig = tasks@;
    let mut tasks = tasks;
    let mut task_refs: Vec<TaskDef> = Vec::new();
    let mut task_defs: Vec<Task> = Vec::new();
    while tasks.len() > 0
        invariant
            task_refs@.len() == task_defs@.len(),
            task_refs@.len() + tasks@.len() == orig.len(),
            tasks@ == orig.subrange(task_refs@.len() as int, orig.len() as int),
            forall|i: int|
                0 <= i < task_refs@.len() ==> task_def_of(orig[i], #[trigger] task_refs@[i])
                    && task_doc_of(orig[i], task_defs@[i]),
        decreases tasks@.len(),
    {
        let t = tasks.remove(0);
        let TaskManifest { name: task_name, spec, param_values, run_after } = t;
        task_refs.push(
            TaskDef {
                name: task_name.clone(),
                task_ref: TaskRef { name: task_name.clone() },
                run_after,
                params: param_values,
            },
        );
        task_defs.push(
            Task {
                api_version: String::from_str(TEKTON_DEV_V1),
                kind: String::from_str("Task"),
                metadata: Metadata { name: task_name },
                spec,
            },
        );
    }
    let pipeline_params = if params.len() > 0 {
        Some(params)
    } else {
        None
    };
    let pipeline_results = if results.len() > 0 {
        Some(results)
    } else {
        None
    };
    Manifest {
        pipeline: Pipeline {
            api_version: String::from_str(TEKTON_DEV_V1),
            kind: String::from_str("Pipeline"),
            metadata: Metadata { name: String::from_str(name) },
            spec: PipelineSpec { params: pipeline_params, results: pipeline_results, tasks: task_refs },
        },
        tasks: task_defs,
    }
}

/// `to_manifest` where absent parameters or results count as none.
pub fn to_manifest_with_optional_args(
    name: &str,
    tasks: Vec<TaskManifest>,
    params: Option<Vec<Param>>,
    results: Option<Vec<ParamValue>>,
) -> (r: Manifest)
    ensures
        manifest_of(name@, tasks@, opt_seq(params), opt_seq(results), r),
{
    to_manifest(name, tasks, or_empty(params), or_empty(results))
}

impl ArtifactRequest {
    /// Checks a submitted request. Every request is accepted: dependencies are resolved
    /// when a rollout is dispatched.
    pub fn validate(&self) -> (r: Result<()>)
        ensures
            r is Ok,
    {
        Ok(())
    }

    /// Prefixes the name of each build task with the artifact's name and a dash, so that
    /// task documents of different artifacts do not collide.
    pub fn format(&mut self) -> (r: Result<()>)
        ensures
            r is Ok,
            final(self).name == old(self).name,
            final(self).total == old(self).total,
            final(self).target == old(self).target,
            final(self).refs == old(self).refs,
            final(self).clean == old(self).clean,
            final(self).build.params == old(self).build.params,
            final(self).build.results == old(self).build.results,
            final(self).build.secrets == old(self).build.secrets,
            final(self).build.accounts == old(self).build.accounts,
            final(self).build.tasks@.len() == old(self).build.tasks@.len(),
            forall|i: int|
                0 <= i < old(self).build.tasks@.len() ==> renamed_task(
                    old(self).name@,
                    old(self).build.tasks@[i],
                    #[trigger] final(self).build.tasks@[i],
                ),
    {
        let ghost orig = self.build.tasks@;
        let mut done: Vec<TaskManifest> = Vec::new();
        while self.build.tasks.len() > 0
            invariant
                self.name == old(self).name,
                self.total == old(self).total,
                self.target == old(self).target,
                self.refs == old(self).refs,
                self.clean == old(self).clean,
                self.build.params == old(self).build.params,
                self.build.results == old(self).build.results,
                self.build.secrets == old(self).build.secrets,
                self.build.accounts == old(self).build.accounts,
                orig == old(self).build.tasks@,
                done@.len() + self.build.tasks@.len() == orig.len(),
                self.build.tasks@ == orig.subrange(done@.len() as int, orig.len() as int),
                forall|i: int|
                    0 <= i < done@.len() ==> renamed_task(
                        old(self).name@,
                        orig[i],
                        #[trigger] done@[i],
                    ),
            decreases self.build.tasks@.len(),
        {
            let mut t = self.build.tasks.remove(0);
            let mut full = joined(self.name.as_str(), "-");
            full.append(t.name.as_str());
            t.name = full;
            done.push(t);
        }
        self.build.tasks = done;
        Ok(())
    }
}

impl Artifact {
    /// The artifact that a request declares, with the manifests of its build and clean
    /// pipelines; the rollouts' rendered manifests are left empty for the caller to fill.
    /// Dependencies (accounts, secrets, artifact references) belong to the build rollout.
    pub fn from_request(value: ArtifactRequest) -> (r: (Artifact, Manifest, Manifest))
        ensures
            r.0.id == value.name,
            r.0.total == value.total,
            r.0.target == value.target,
            r.0.build.name@ == "build-"@ + value.name@,
            r.0.clean.name@ == "clean-"@ + value.name@,
            r.0.build.stats == ArtifactStatus::NotScheduled,
            r.0.clean.stats == ArtifactStatus::NotScheduled,
            r.0.build.last_sched == NEVER_SCHEDULED,
            r.0.clean.last_sched == NEVER_SCHEDULED,
            r.0.build.accounts@ == opt_seq(value.build.accounts),
            r.0.build.secrets@ == opt_seq(value.build.secrets),
            r.0.build.art_refs@ == opt_seq(value.refs),
            r.0.clean.accounts@.len() == 0,
            r.0.clean.secrets@.len() == 0,
            r.0.clean.art_refs@.len() == 0,
            r.0.build.manifest@.len() == 0,
            r.0.clean.manifest@.len() == 0,
            manifest_of(
                "build-"@ + value.name@,
                value.build.tasks@,
                opt_seq(value.build.params),
                opt_seq(value.build.results),
                r.1,
            ),
            manifest_of(
                "clean-"@ + value.name@,
                value.clean.tasks@,
                opt_seq(value.clean.params),
                opt_seq(value.clean.results),
                r.2,
            ),
    {
        let ArtifactRequest { name, total, target, refs, build, clean } = value;
        let build_name = joined("build-", name.as_str());
        let clean_name = joined("clean-", name.as_str());
        let DeployUnit { params, tasks, results, secrets, accounts } = build;
        let build_manifest = to_manifest_with_optional_args(
            build_name.as_str(),
            tasks,
            params,
            results,
        );
        let clean_manifest = to_manifest_with_optional_args(
            clean_name.as_str(),
            clean.tasks,
            clean.params,
            clean.results,
        );
        let artifact = Artifact {
            id: name,
            tags: HashMap::new(),
            total,
            target,
            build: fresh_rollout(
                build_name,
                or_empty(accounts),
                or_empty(secrets),
                or_empty(refs),
                String::new(),
            ),
            clean: fresh_rollout(clean_name, Vec::new(), Vec::new(), Vec::new(), String::new()),
        };
        (artifact, build_manifest, clean_manifest)
    }
}

/// Placeholder credentials of a dependency, until the store holds real ones: one key `k1`
/// with value `v1`.
fn placeholder_data() -> (r: Vec<(String, String)>)
    ensures
        is_placeholder_data(r@),
{
    let mut kvs: Vec<(String, String)> = Vec::new();
    kvs.push((String::from_str("k1"), String::from_str("v1")));
    kvs
}

/// The single pair `k1` = `v1`.
pub open spec fn is_placeholder_data(kvs: Seq<(String, String)>) -> bool {
    kvs.len() == 1 && kvs[0].0@ == "k1"@ && kvs[0].1@ == "v1"@
}

/// `s` is the opaque cluster secret `name` in the default namespace, holding the
/// placeholder credentials.
pub open spec fn is_placeholder_secret(s: Secret, name: String) -> bool {
    &&& s.metadata.name == name
    &&& s.metadata.namespace@ == DEFAULT_NAMESPACE@
    &&& s.api_version@ == "v1"@
    &&& s.kind@ == "Secret"@
    &&& s.tpe@ == "Opaque"@
    &&& is_placeholder_data(s.string_data@)
}

impl ArtifactRef {
    /// The results that the referenced artifact shares with its dependants.
    pub fn get_data(&self) -> (r: Option<Vec<ParamValue>>)
        ensures
            r matches Some(v) && v@.len() == 1 && v@[0].name@ == "abckl"@ && v@[0].value@
                == "value1"@,
    {
        let mut v: Vec<ParamValue> = Vec::new();
        v.push(ParamValue { name: String::from_str("abckl"), value: String::from_str("value1") });
        Some(v)
    }
}

impl SecretRef {
    /// The cluster secret that carries this secret into the runs.
    pub fn get_data(&self) -> (r: Option<Secret>)
        ensures
            r matches Some(s) && is_placeholder_secret(s, self.name),
    {
        Some(Secret::new(self.name.clone(), DEFAULT_NAMESPACE, placeholder_data()))
    }
}

impl AccountRef {
    /// The cluster secret that carries this account into the runs.
    pub fn get_data(&self) -> (r: Option<Secret>)
        ensures
            r matches Some(s) && is_placeholder_secret(s, self.name),
    {
        Some(Secret::new(self.name.clone(), DEFAULT_NAMESPACE, placeholder_data()))
    }
}

/// The parameters of one workflow run: the artifact it serves and the instance it creates.
pub fn run_params(art_id: &str, inst_id: &str) -> (r: Vec<String>)
    ensures
        r@.len() == 2,
        r@[0]@ == "art_id="@ + art_id@,
        r@[1]@ == "inst_id="@ + inst_id@,
{
    let mut r: Vec<String> = Vec::new();
    r.push(joined("art_id=", art_id));
    r.push(joined("inst_id=", inst_id));
    r
}

} // verus!
