//! Drives a chain's command-line executable through smart-contract
//! lifecycle operations: argument composition, response decoding and the
//! submit/confirm transaction lifecycle.

pub mod args;
pub mod commands;
pub mod config;
pub mod error;
pub mod invocation;
pub mod json;
pub mod lifecycle;
pub mod network;
pub mod profile;
pub mod response;
pub mod scaffold;

pub use commands::{CreatePipelineCommand, DocgenCommand, Executable, PipelineCommand, SchemaCommand};
pub use config::{Pipeline, PipelineConfig};
pub use error::PipelineError;
pub use invocation::{InputSource, Invocation, ProcessEvent, ProcessOutput};
pub use json::Json;
pub use lifecycle::{TxState, TxStep};
pub use network::{Network, NetworkConfig};
pub use profile::CustomPipelineProfile;
pub use response::{KeyInfo, TxResult};
