//! The process supervisor's decisions: how a supervision session begins.
//! Spawning the child and wiring its streams are the caller's outside work;
//! the decisions here fix what the caller launches, with which arguments,
//! and what a spawn outcome means — a fresh not-yet-ready session on
//! success, a fatal error carrying the underlying cause on failure.

use vstd::prelude::*;
use crate::readiness::ReadinessState;

verus! {

/// A spawn failure is fatal to supervision: the executable was missing, the
/// OS refused to create the process, or a resource ran out. The underlying
/// cause is carried to the caller, who must abort startup or surface the
/// failure; nothing here retries.
pub struct SpawnError {
    message: String,
}

impl SpawnError {
    /// The carried cause, as text.
    pub closed spec fn spec_message(&self) -> Seq<char> {
        self.message@
    }

    /// Wrap the underlying cause of a failed spawn.
    pub fn new(message: String) -> (r: SpawnError)
        ensures
            r.spec_message() == message@,
    {
        SpawnError { message }
    }

    /// Read the carried cause back.
    pub fn message(&self) -> (r: &String)
        ensures
            r@ == self.spec_message(),
    {
        &self.message
    }
}

/// The executable identifier of the supervised backend, bundled alongside
/// the host application.
pub fn backend_command_name() -> (name: &'static str)
    ensures
        name@ == "taskplex-backend"@,
{
    "taskplex-backend"
}

/// The ordered argument list handed to the backend: exactly its dedicated
/// listening port, so that it never collides with another deployment of the
/// same backend on a different well-known port.
pub fn backend_args() -> (args: Vec<String>)
    ensures
        args@.len() == 1,
        args@[0]@ == "8001"@,
{
    let mut args: Vec<String> = Vec::new();
    args.push("8001".to_owned());
    args
}

/// Begin a supervision session from the outcome of the spawn attempt. A
/// session begins, with a fresh flag that is not yet ready, exactly when the
/// spawn succeeded; a failed spawn yields a `SpawnError` carrying the cause,
/// and no readiness flag is ever created for the session.
pub fn begin_supervision(spawn_result: Result<(), String>) -> (r: Result<
    ReadinessState,
    SpawnError,
>)
    ensures
        r is Ok <==> spawn_result is Ok,
        r matches Ok(state) ==> !state.spec_is_ready(),
        spawn_result matches Err(cause) ==> (r matches Err(e) && e.spec_message() == cause@),
{
    match spawn_result {
        Ok(_) => Ok(ReadinessState::new()),
        Err(cause) => Err(SpawnError::new(cause)),
    }
}

} // verus!
