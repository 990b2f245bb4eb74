use vstd::prelude::*;

use crate::outcome::{SpawnOutcome, probe_outcome, serve_outcome, probe_error_text, serve_error_text};

verus! {

/// Once the process was created, the probe reports the tool as installed,
/// whatever exit code the process had.
pub proof fn lemma_probe_ignores_exit_code(a: Option<i32>, b: Option<i32>)
    ensures
        probe_outcome(SpawnOutcome::Spawned(a)) == probe_outcome(SpawnOutcome::Spawned(b)),
        probe_outcome(SpawnOutcome::Spawned(a)) == Ok::<bool, Seq<char>>(true),
{
}

/// Once the process was created, starting the server succeeds, whatever exit
/// code the process had.
pub proof fn lemma_serve_ignores_exit_code(a: Option<i32>, b: Option<i32>)
    ensures
        serve_outcome(SpawnOutcome::Spawned(a)) == serve_outcome(SpawnOutcome::Spawned(b)),
        serve_outcome(SpawnOutcome::Spawned(a)) is Ok,
{
}

/// Starting the server succeeds exactly when the probe, on the same outcome,
/// reports the tool as installed. Where the probe reads an absent tool as
/// `false`, starting the server reports an error instead.
pub proof fn lemma_serve_succeeds_iff_probe_installed(o: SpawnOutcome)
    ensures
        serve_outcome(o) is Ok <==> probe_outcome(o) == Ok::<bool, Seq<char>>(true),
        probe_outcome(o) == Ok::<bool, Seq<char>>(false) ==> serve_outcome(o) is Err,
        probe_outcome(o) is Err ==> serve_outcome(o) is Err,
{
}

/// Where the probe fails, starting the server fails with the same operating
/// system description, under its own heading.
pub proof fn lemma_failures_share_detail(o: SpawnOutcome, detail: Seq<char>)
    requires
        probe_outcome(o) == Err::<bool, Seq<char>>(probe_error_text(detail)),
    ensures
        serve_outcome(o) == Err::<(), Seq<char>>(serve_error_text(detail)),
{
    reveal_strlit("Error checking Ollama installation: ");
    if let SpawnOutcome::Failed(d) = o {
        assert(probe_error_text(d@) == probe_error_text(detail));
        let n = "Error checking Ollama installation: "@.len();
        assert(d@ =~= probe_error_text(d@).subrange(n as int, probe_error_text(d@).len() as int));
        assert(detail =~= probe_error_text(detail).subrange(n as int, probe_error_text(detail).len() as int));
    }
}

} // verus!
