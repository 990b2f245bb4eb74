use ollama_probe::invocation::{probe_invocation, serve_invocation};
use ollama_probe::outcome::{classify_probe, classify_serve, SpawnOutcome};

const NOT_FOUND: &str = "No such file or directory (os error 2)";
const DENIED: &str = "Permission denied (os error 13)";

#[test]
fn absent_tool_reads_as_not_installed() {
    let o = SpawnOutcome::NotFound(NOT_FOUND.to_string());
    assert_eq!(classify_probe(&o), Ok(false));
}

#[test]
fn present_tool_reads_as_installed_whatever_exit_code() {
    for code in [Some(0), Some(1), Some(127), Some(-1), None] {
        assert_eq!(classify_probe(&SpawnOutcome::Spawned(code)), Ok(true));
    }
}

#[test]
fn other_launch_failure_is_probe_error() {
    let o = SpawnOutcome::Failed(DENIED.to_string());
    assert_eq!(
        classify_probe(&o),
        Err("Error checking Ollama installation: Permission denied (os error 13)".to_string())
    );
}

#[test]
fn serve_succeeds_once_spawned_whatever_exit_code() {
    for code in [Some(0), Some(2), None] {
        assert_eq!(classify_serve(&SpawnOutcome::Spawned(code)), Ok(()));
    }
}

#[test]
fn serve_fails_when_tool_absent() {
    let o = SpawnOutcome::NotFound(NOT_FOUND.to_string());
    assert_eq!(
        classify_serve(&o),
        Err("Error starting Ollama server: No such file or directory (os error 2)".to_string())
    );
}

#[test]
fn serve_fails_on_other_launch_failure() {
    let o = SpawnOutcome::Failed(DENIED.to_string());
    assert_eq!(
        classify_serve(&o),
        Err("Error starting Ollama server: Permission denied (os error 13)".to_string())
    );
}

#[test]
fn absent_tool_scenario() {
    let o = SpawnOutcome::NotFound("No such file or directory".to_string());
    assert_eq!(classify_probe(&o), Ok(false));
    assert_eq!(
        classify_serve(&o),
        Err("Error starting Ollama server: No such file or directory".to_string())
    );
}

#[test]
fn present_tool_scenario() {
    assert_eq!(classify_probe(&SpawnOutcome::Spawned(Some(0))), Ok(true));
    assert_eq!(classify_serve(&SpawnOutcome::Spawned(Some(0))), Ok(()));
}

#[test]
fn empty_detail_keeps_heading() {
    let o = SpawnOutcome::Failed(String::new());
    assert_eq!(
        classify_probe(&o),
        Err("Error checking Ollama installation: ".to_string())
    );
}

#[test]
fn invocations_name_tool_and_argument() {
    let p = probe_invocation();
    assert_eq!(p.program, "ollama");
    assert_eq!(p.arg, "--version");
    let s = serve_invocation();
    assert_eq!(s.program, "ollama");
    assert_eq!(s.arg, "serve");
}
