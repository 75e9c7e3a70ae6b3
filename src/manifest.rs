use vstd::prelude::*;
use vstd::string::*;

verus! {

/// The API group and version of the workflow engine's pipeline and task documents.
pub const TEKTON_DEV_V1: &'static str = "tekton.dev/v1";

/// One task of a deploy unit as a user declares it.
#[derive(Debug, Default, PartialEq, Clone)]
pub struct TaskManifest {
    pub name: String,
    pub spec: TaskSpec,
    pub param_values: Option<Vec<ParamValue>>,
    pub run_after: Option<Vec<String>>,
}

/// A task document handed to the workflow engine.
#[derive(Debug, Default, PartialEq, Clone)]
pub struct Task {
    pub api_version: String,
    pub kind: String,
    pub metadata: Metadata,
    pub spec: TaskSpec,
}

#[derive(Debug, Default, PartialEq, Clone)]
pub struct Metadata {
    pub name: String,
}

#[derive(Debug, Default, PartialEq, Clone)]
pub struct TaskSpec {
    pub results: Option<Vec<TaskResult>>,
    pub params: Option<Vec<Param>>,
    pub step_template: Option<StepTemplate>,
    pub volumes: Option<Vec<Volume>>,
    pub steps: Vec<TaskStep>,
    pub sidecars: Option<Vec<TaskStep>>,
}

#[derive(Debug, Default, PartialEq, Clone)]
pub struct StepTemplate {
    pub env: Vec<TaskStepEnvKV>,
}

#[derive(Debug, Default, PartialEq, Clone)]
pub struct Volume {
    pub name: String,
    pub volume_type: VolumeType,
}

#[derive(Debug, PartialEq, Clone)]
pub enum VolumeType {
    HostPath(HostPath),
    EmptyDir(String),
    ConfigMap(ConfigMapRef),
    Secret(SecretRef),
}

#[derive(Debug, Default, PartialEq, Clone)]
pub struct ConfigMapRef {
    pub name: String,
}

#[derive(Debug, Default, PartialEq, Clone)]
pub struct HostPath {
    pub path: String,
    pub tpe: Option<String>,
}

/// A volume backed by a secret of the cluster.
#[derive(Debug, Default, PartialEq, Clone)]
pub struct SecretRef {
    pub secret_name: String,
}

#[derive(Debug, Default, PartialEq, Clone)]
pub struct TaskResult {
    pub name: String,
    pub description: String,
}

#[derive(Debug, Default, PartialEq, Clone)]
pub struct TaskStep {
    pub name: String,
    pub image: String,
    pub command: Option<String>,
    pub args: Option<Vec<String>>,
    pub env: Option<Vec<TaskStepEnvKV>>,
    pub script: Option<String>,
    pub description: Option<String>,
    pub volume_mounts: Option<Vec<VolumeMount>>,
    pub compute_resources: Option<ComputeResource>,
    pub timeout: Option<String>,
    pub on_error: Option<String>,
    pub stdout_config: Option<OutputPath>,
    pub stderr_config: Option<OutputPath>,
    pub security_context: Option<SecurityContext>,
}

#[derive(Debug, Default, PartialEq, Clone)]
pub struct SecurityContext {
    pub privileged: bool,
}

#[derive(Debug, Default, PartialEq, Clone)]
pub struct TaskStepEnvKV {
    pub name: String,
    pub value: EnvValue,
}

#[derive(Debug, PartialEq, Clone)]
pub enum EnvValue {
    Value(String),
    SecretKeyRef(SecretKeyRef),
}

#[derive(Debug, Default, PartialEq, Clone)]
pub struct SecretKeyRef {
    pub name: String,
    pub key: String,
}

#[derive(Debug, Default, PartialEq, Clone)]
pub struct ComputeResource {
    pub requests: ResourceDescription,
    pub limits: ResourceDescription,
}

#[derive(Debug, Default, PartialEq, Clone)]
pub struct ResourceDescription {
    pub cpu: String,
    pub mem: String,
}

#[derive(Debug, Default, PartialEq, Clone)]
pub struct OutputPath {
    pub path: String,
}

#[derive(Debug, Default, PartialEq, Clone)]
pub struct VolumeMount {
    pub name: String,
    pub mount_path: String,
}

#[derive(Debug, Default, PartialEq, Clone)]
pub struct Param {
    pub name: String,
    pub tpe: Option<String>,
    pub description: String,
    pub default: Option<String>,
}

/// The pipeline document that chains the tasks of one rollout.
#[derive(Debug, Default, PartialEq, Clone)]
pub struct Pipeline {
    pub api_version: String,
    pub kind: String,
    pub metadata: Metadata,
    pub spec: PipelineSpec,
}

#[derive(Debug, Default, PartialEq, Clone)]
pub struct PipelineSpec {
    pub params: Option<Vec<Param>>,
    pub results: Option<Vec<ParamValue>>,
    pub tasks: Vec<TaskDef>,
}

/// A pipeline's reference to one of its tasks.
#[derive(Debug, Default, PartialEq, Clone)]
pub struct TaskDef {
    pub name: String,
    pub task_ref: TaskRef,
    pub run_after: Option<Vec<String>>,
    pub params: Option<Vec<ParamValue>>,
}

#[derive(Debug, Default, PartialEq, Clone)]
pub struct TaskRef {
    pub name: String,
}

#[derive(Debug, Default, PartialEq, Clone)]
pub struct ParamValue {
    pub name: String,
    pub value: String,
}

/// Everything that is applied to the workflow engine for one rollout: its task documents
/// and the pipeline that chains them.
#[derive(Debug, Default, PartialEq, Clone)]
pub struct Manifest {
    pub pipeline: Pipeline,
    pub tasks: Vec<Task>,
}

/// A secret document of the cluster, holding credentials for the runs of a rollout as
/// key-value pairs with distinct keys.
#[derive(Debug, Default, PartialEq, Clone)]
pub struct Secret {
    pub api_version: String,
    pub kind: String,
    pub metadata: SecretMetadata,
    pub tpe: String,
    pub string_data: Vec<(String, String)>,
}

#[derive(Debug, Default, PartialEq, Clone)]
pub struct SecretMetadata {
    pub name: String,
    pub namespace: String,
}

impl Default for VolumeType {
    fn default() -> (r: Self)
        ensures
            r matches VolumeType::EmptyDir(s) && s@ == "{}"@,
    {
        VolumeType::EmptyDir(String::from_str("{}"))
    }
}

impl Default for EnvValue {
    fn default() -> (r: Self)
        ensures
            r matches EnvValue::Value(s) && s@.len() == 0,
    {
        EnvValue::Value(String::new())
    }
}

impl Secret {
    /// An opaque secret `name` in `namespace` holding `kvs`.
    pub fn new(name: String, namespace: &str, kvs: Vec<(String, String)>) -> (r: Secret)
        ensures
            r.api_version@ == "v1"@,
            r.kind@ == "Secret"@,
            r.tpe@ == "Opaque"@,
            r.metadata.name == name,
            r.metadata.namespace@ == namespace@,
            r.string_data == kvs,
    {
        Secret {
            api_version: String::from_str("v1"),
            kind: String::from_str("Secret"),
            metadata: SecretMetadata { name, namespace: String::from_str(namespace) },
            tpe: String::from_str("Opaque"),
            string_data: kvs,
        }
    }
}

} // verus!
