//! A sandbox for untrusted WebAssembly: one exported function of a module
//! is called under a ceiling on linear memory, a ceiling on table entries
//! and a budget of fuel, and the call is reported on.
//!
//! `limiter` holds the growth policy, `executor` the steps of an invocation,
//! `signature` and `report` the decisions the executor takes on what the
//! runtime tells it, `cli` the command line's values, and `runtime` what is
//! taken on trust from the runtime itself.

pub mod cli;
pub mod error;
pub mod executor;
pub mod limiter;
pub mod report;
pub mod runtime;
pub mod signature;

pub use cli::{Cli, Commands};
pub use error::SandboxError;
pub use executor::run_wasm;
pub use limiter::SandboxState;
pub use report::ExectionReport;
