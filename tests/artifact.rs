use train_lib::artifact::{
    run_params, to_manifest, AccountRef, Artifact, ArtifactRef, ArtifactRequest, ArtifactStatus, DeployUnit, SecretRef,
    DEFAULT_NAMESPACE, NEVER_SCHEDULED,
};
use train_lib::error::{error, new_pipeline_error, new_process_error, GeneralError};
use train_lib::instance::InstanceStatus;
use train_lib::manifest::{Param, ParamValue, Secret, TaskManifest, TaskSpec, TaskStep};
use train_lib::ops::ArtifactOps;
use train_lib::queue::{Queue, DEFAULT_QUEUE_NAME};

fn task(name: &str) -> TaskManifest {
    TaskManifest {
        name: name.to_owned(),
        spec: TaskSpec {
            steps: vec![TaskStep { name: "step1".to_owned(), image: "ubuntu".to_owned(), ..Default::default() }],
            ..Default::default()
        },
        param_values: Some(vec![ParamValue { name: "name".to_owned(), value: "John".to_owned() }]),
        run_after: None,
    }
}

fn request() -> ArtifactRequest {
    ArtifactRequest {
        name: "opsman".to_owned(),
        total: 3,
        target: 2,
        refs: Some(vec![ArtifactRef { name: "mock".to_owned() }]),
        build: DeployUnit {
            params: Some(vec![Param { name: "art_id".to_owned(), tpe: Some("string".to_owned()), description: "The artifact ID".to_owned(), default: None }]),
            tasks: vec![task("task1"), task("task2")],
            results: None,
            secrets: Some(vec![SecretRef { name: "pivnet".to_owned() }]),
            accounts: Some(vec![AccountRef { name: "gcp-environment".to_owned() }]),
        },
        clean: DeployUnit { tasks: vec![task("task1")], ..Default::default() },
    }
}

#[test]
fn new_artifact_is_never_scheduled() {
    let a = Artifact::new("opsman", 3, 2);
    assert_eq!(a.id, "opsman");
    assert_eq!((a.total, a.target), (3, 2));
    assert_eq!(a.build.name, "build-opsman");
    assert_eq!(a.clean.name, "clean-opsman");
    assert_eq!(a.build.stats, ArtifactStatus::NotScheduled);
    assert_eq!(a.build.last_sched, NEVER_SCHEDULED);
    assert_eq!(NEVER_SCHEDULED, 1355314332);
    assert!(a.build.accounts.is_empty() && a.build.manifest.is_empty());
}

#[test]
fn status_text_round_trips() {
    for s in [
        ArtifactStatus::NotScheduled,
        ArtifactStatus::Running,
        ArtifactStatus::PendingAccount,
        ArtifactStatus::PendingArtRef,
        ArtifactStatus::Failed,
        ArtifactStatus::Succeeded,
    ] {
        assert_eq!(ArtifactStatus::parse(&s.to_string()), s);
    }
    assert_eq!(ArtifactStatus::PendingArtRef.to_string(), "PendingArtRef");
    assert_eq!(ArtifactStatus::parse("whatever"), ArtifactStatus::NotScheduled);
    assert_eq!(ArtifactStatus::default(), ArtifactStatus::NotScheduled);
}

#[test]
fn instance_status_text() {
    assert_eq!(InstanceStatus::parse("Running"), InstanceStatus::Running);
    assert_eq!(InstanceStatus::parse("Succeeded"), InstanceStatus::Succeeded);
    assert_eq!(InstanceStatus::parse(""), InstanceStatus::Unknown);
    assert_eq!(InstanceStatus::parse("Failed"), InstanceStatus::Failed("Failed".to_owned()));
    assert_eq!(InstanceStatus::Failed("oom".to_owned()).to_string(), "Fail: oom");
    assert_eq!(InstanceStatus::Unknown.to_string(), "Unknown");
    assert_eq!(InstanceStatus::default(), InstanceStatus::Unknown);
    assert!(InstanceStatus::Failed(String::new()).is_failed());
    assert!(!InstanceStatus::Succeeded.is_failed());
}

#[test]
fn format_prefixes_build_task_names() {
    let mut r = request();
    r.format().unwrap();
    assert_eq!(r.build.tasks[0].name, "opsman-task1");
    assert_eq!(r.build.tasks[1].name, "opsman-task2");
    assert_eq!(r.clean.tasks[0].name, "task1");
    assert!(r.validate().is_ok());
}

#[test]
fn manifest_references_each_task() {
    let m = to_manifest("build-opsman", vec![task("t1"), task("t2")], Vec::new(), vec![ParamValue { name: "out".to_owned(), value: "v".to_owned() }]);
    assert_eq!(m.pipeline.metadata.name, "build-opsman");
    assert_eq!(m.pipeline.kind, "Pipeline");
    assert_eq!(m.pipeline.api_version, "tekton.dev/v1");
    assert!(m.pipeline.spec.params.is_none());
    assert_eq!(m.pipeline.spec.results.as_ref().unwrap().len(), 1);
    assert_eq!(m.pipeline.spec.tasks.len(), 2);
    assert_eq!(m.pipeline.spec.tasks[1].name, "t2");
    assert_eq!(m.pipeline.spec.tasks[1].task_ref.name, "t2");
    assert_eq!(m.pipeline.spec.tasks[0].params, task("t1").param_values);
    assert_eq!(m.tasks[0].kind, "Task");
    assert_eq!(m.tasks[0].metadata.name, "t1");
    assert_eq!(m.tasks[0].spec, task("t1").spec);
}

#[test]
fn artifact_from_request() {
    let (a, build, clean) = Artifact::from_request(request());
    assert_eq!(a.id, "opsman");
    assert_eq!(a.build.name, "build-opsman");
    assert_eq!(a.clean.name, "clean-opsman");
    assert_eq!(a.build.accounts, vec![AccountRef { name: "gcp-environment".to_owned() }]);
    assert_eq!(a.build.secrets, vec![SecretRef { name: "pivnet".to_owned() }]);
    assert_eq!(a.build.art_refs, vec![ArtifactRef { name: "mock".to_owned() }]);
    assert!(a.clean.accounts.is_empty());
    assert_eq!(build.pipeline.metadata.name, "build-opsman");
    assert_eq!(build.pipeline.spec.params.as_ref().unwrap().len(), 1);
    assert_eq!(build.tasks.len(), 2);
    assert_eq!(clean.pipeline.metadata.name, "clean-opsman");
    assert_eq!(clean.tasks.len(), 1);
}

#[test]
fn run_params_name_artifact_and_instance() {
    assert_eq!(run_params("opsman", "cold-1a2b"), vec!["art_id=opsman".to_owned(), "inst_id=cold-1a2b".to_owned()]);
}

#[test]
fn dependency_data() {
    let d = ArtifactRef { name: "mock".to_owned() }.get_data().unwrap();
    assert_eq!(d, vec![ParamValue { name: "abckl".to_owned(), value: "value1".to_owned() }]);
    let s = SecretRef { name: "pivnet".to_owned() }.get_data().unwrap();
    assert_eq!(s.metadata.name, "pivnet");
    assert_eq!(s.metadata.namespace, DEFAULT_NAMESPACE);
    assert_eq!(s.string_data, vec![("k1".to_owned(), "v1".to_owned())]);
    assert_eq!(s.api_version, "v1");
    assert_eq!(s.tpe, "Opaque");
    let s = AccountRef { name: "gcp".to_owned() }.get_data().unwrap();
    assert_eq!(s.kind, "Secret");
    assert_eq!(s.tpe, "Opaque");
}

#[test]
fn secret_document() {
    let s = Secret::new("sec-opsman-pivnet".to_owned(), "train", vec![("user_id".to_owned(), "u1".to_owned())]);
    assert_eq!(s.api_version, "v1");
    assert_eq!(s.metadata.namespace, "train");
    assert_eq!(s.string_data.len(), 1);
}

#[test]
fn errors_carry_their_text() {
    assert_eq!(error("bad"), GeneralError::Error("bad".to_owned()));
    assert_eq!(new_process_error("p"), GeneralError::ProcessError("p".to_owned()));
    assert_eq!(new_pipeline_error("q"), GeneralError::PipelineError("q".to_owned()));
}

#[test]
fn queue_reply() {
    let q = Queue::new(DEFAULT_QUEUE_NAME.to_owned());
    assert_eq!(q.name, DEFAULT_QUEUE_NAME);
    assert_eq!(Queue::take_reply(Some(("k".to_owned(), "art-001".to_owned()))).unwrap(), "art-001");
    assert_eq!(Queue::take_reply(None).unwrap_err(), GeneralError::Error("Timeout".to_owned()));
}

#[test]
fn artifact_ops_succeed() {
    assert!(ArtifactOps::delete("a").is_ok());
    assert!(ArtifactOps::deploy("a").is_ok());
    assert!(ArtifactOps::destroy("a").is_ok());
}
