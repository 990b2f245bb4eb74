use vstd::prelude::*;
use vstd::string::*;

verus! {

/// How the operating system answered a request to start the tool.
pub enum SpawnOutcome {
    /// The process was created; carries its exit code, where it had one.
    Spawned(Option<i32>),
    /// The executable could not be located on the search path; carries the
    /// operating system's description of the failure.
    NotFound(String),
    /// Any other failure to create the process (permission denied, resource
    /// exhaustion, ...); carries the operating system's description.
    Failed(String),
}

/// A result whose error message is seen as its sequence of characters.
pub open spec fn text_result<T>(r: Result<T, String>) -> Result<T, Seq<char>> {
    match r {
        Ok(v) => Ok(v),
        Err(e) => Err(e@),
    }
}

/// The message reported when probing fails for a reason other than absence.
pub open spec fn probe_error_text(detail: Seq<char>) -> Seq<char> {
    "Error checking Ollama installation: "@ + detail
}

/// The message reported when the server cannot be started.
pub open spec fn serve_error_text(detail: Seq<char>) -> Seq<char> {
    "Error starting Ollama server: "@ + detail
}

/// What probing for the tool reports for a given spawn outcome: any process
/// that was created means the tool is installed, whatever its exit code; an
/// executable that is not found means it is not; anything else is an error.
pub open spec fn probe_outcome(o: SpawnOutcome) -> Result<bool, Seq<char>> {
    match o {
        SpawnOutcome::Spawned(_) => Ok(true),
        SpawnOutcome::NotFound(_) => Ok(false),
        SpawnOutcome::Failed(detail) => Err(probe_error_text(detail@)),
    }
}

/// What starting the server reports for a given spawn outcome: success once
/// the process was created, whatever its exit code; an error on any failure to
/// create it, absence of the tool included.
pub open spec fn serve_outcome(o: SpawnOutcome) -> Result<(), Seq<char>> {
    match o {
        SpawnOutcome::Spawned(_) => Ok(()),
        SpawnOutcome::NotFound(detail) => Err(serve_error_text(detail@)),
        SpawnOutcome::Failed(detail) => Err(serve_error_text(detail@)),
    }
}

fn prefixed(prefix: &str, detail: &String) -> (r: String)
    ensures
        r@ == prefix@ + detail@,
{
    let head = String::from_str(prefix);
    head.concat(detail.as_str())
}

/// Classifies the outcome of running the tool with its version query.
pub fn classify_probe(outcome: &SpawnOutcome) -> (r: Result<bool, String>)
    ensures
        text_result(r) == probe_outcome(*outcome),
        *outcome is Spawned ==> r == Ok::<bool, String>(true),
        *outcome is NotFound ==> r == Ok::<bool, String>(false),
        *outcome is Failed ==> r is Err && r->Err_0@ == probe_error_text(outcome->Failed_0@),
{
    match outcome {
        SpawnOutcome::Spawned(_) => Ok(true),
        SpawnOutcome::NotFound(_) => Ok(false),
        SpawnOutcome::Failed(detail) => Err(
            prefixed("Error checking Ollama installation: ", detail),
        ),
    }
}

/// Classifies the outcome of running the tool with its serve command.
pub fn classify_serve(outcome: &SpawnOutcome) -> (r: Result<(), String>)
    ensures
        text_result(r) == serve_outcome(*outcome),
        *outcome is Spawned <==> r is Ok,
        *outcome is NotFound ==> r is Err && r->Err_0@ == serve_error_text(outcome->NotFound_0@),
        *outcome is Failed ==> r is Err && r->Err_0@ == serve_error_text(outcome->Failed_0@),
{
    match outcome {
        SpawnOutcome::Spawned(_) => Ok(()),
        SpawnOutcome::NotFound(detail) => Err(prefixed("Error starting Ollama server: ", detail)),
        SpawnOutcome::Failed(detail) => Err(prefixed("Error starting Ollama server: ", detail)),
    }
}

} // verus!
