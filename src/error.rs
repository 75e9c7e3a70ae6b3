use vstd::prelude::*;

verus! {

/// Errors of the scheduling core. Failures of outside collaborators (store, workflow
/// runner, serialisation) arrive here as their message text.
#[derive(Debug, Clone, PartialEq)]
pub enum GeneralError {
    Error(String),
    IoError(String),
    ProcessError(String),
    PendingArtRef,
    PendingAccount,
    PipelineError(String),
    RedisError(String),
    SerdeJsonError(String),
    SerdeYamlError(String),
    DBError(String),
}

pub type Result<T> = std::result::Result<T, GeneralError>;

/// A generic error carrying `msg`.
pub fn error(msg: &str) -> (r: GeneralError)
    ensures
        r matches GeneralError::Error(m) && m@ == msg@,
{
    GeneralError::Error(msg.to_owned())
}

/// An error raised while running an outside process.
pub fn new_process_error(err: &str) -> (r: GeneralError)
    ensures
        r matches GeneralError::ProcessError(m) && m@ == err@,
{
    GeneralError::ProcessError(err.to_owned())
}

/// An error reported by the workflow runner.
pub fn new_pipeline_error(err: &str) -> (r: GeneralError)
    ensures
        r matches GeneralError::PipelineError(m) && m@ == err@,
{
    GeneralError::PipelineError(err.to_owned())
}

} // verus!
