//! Detection of the `ollama` command-line tool and launch of its server.
//!
//! The operating system's answer to a spawn is handed in as a
//! [`outcome::SpawnOutcome`]; the functions here decide what it means.

pub mod invocation;
pub mod laws;
pub mod outcome;
