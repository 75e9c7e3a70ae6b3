use vstd::prelude::*;
use crate::error::{GeneralError, Result};

verus! {

/// The store key of the work queue that the dispatch loop consumes.
pub const DEFAULT_QUEUE_NAME: &'static str = "artifact:queue";

/// A durable FIFO work queue of artifact ids, kept in the store under `name`.
#[derive(Debug, Clone, PartialEq)]
pub struct Queue {
    pub name: String,
}

impl Queue {
    pub fn new(name: String) -> (r: Self)
        ensures
            r.name == name,
    {
        Self { name }
    }

    /// What a blocking dequeue returns for the store's reply (the list's key and the
    /// popped id, or nothing when the wait ran out): the id, or a `Timeout` error.
    pub fn take_reply(reply: Option<(String, String)>) -> (r: Result<String>)
        ensures
            match reply {
                Some((_, id)) => r == Ok::<String, GeneralError>(id),
                None => r matches Err(GeneralError::Error(m)) && m@ == "Timeout"@,
            },
    {
        match reply {
            Some((_, art_id)) => Ok(art_id),
            None => Err(crate::error::error("Timeout")),
        }
    }
}

} // verus!
