//! The declarative configuration that drives a pipeline profile.

use vstd::prelude::*;
use vstd::string::*;

verus! {

/// The executable and the argument fragments of one chain. Each fragment
/// is a whitespace-delimited list of arguments; there is no quoting, so an
/// argument that holds whitespace cannot be written.
#[derive(Debug, Clone, PartialEq, Eq)]
pub struct PipelineConfig {
    pub cli_executable: String,
    pub cli_contract_subcommand: String,
    pub cli_args: String,
    pub cli_args_tx: String,
    pub cli_args_network: String,
    pub cli_args_store: String,
}

/// A named pipeline configuration.
#[derive(Debug, Clone, PartialEq, Eq)]
pub struct Pipeline {
    pub name: String,
    pub config: PipelineConfig,
}

pub struct PipelineConfigView {
    pub cli_executable: Seq<char>,
    pub cli_contract_subcommand: Seq<char>,
    pub cli_args: Seq<char>,
    pub cli_args_tx: Seq<char>,
    pub cli_args_network: Seq<char>,
    pub cli_args_store: Seq<char>,
}

pub struct PipelineView {
    pub name: Seq<char>,
    pub config: PipelineConfigView,
}

impl View for PipelineConfig {
    type V = PipelineConfigView;

    open spec fn view(&self) -> PipelineConfigView {
        PipelineConfigView {
            cli_executable: self.cli_executable@,
            cli_contract_subcommand: self.cli_contract_subcommand@,
            cli_args: self.cli_args@,
            cli_args_tx: self.cli_args_tx@,
            cli_args_network: self.cli_args_network@,
            cli_args_store: self.cli_args_store@,
        }
    }
}

impl View for Pipeline {
    type V = PipelineView;

    open spec fn view(&self) -> PipelineView {
        PipelineView { name: self.name@, config: self.config@ }
    }
}

/// The configuration in which every field is empty.
pub open spec fn empty_config() -> PipelineConfigView {
    PipelineConfigView {
        cli_executable: Seq::empty(),
        cli_contract_subcommand: Seq::empty(),
        cli_args: Seq::empty(),
        cli_args_tx: Seq::empty(),
        cli_args_network: Seq::empty(),
        cli_args_store: Seq::empty(),
    }
}

impl Pipeline {
    /// A configuration to fill in by hand: the name, and every other
    /// field empty.
    pub fn template(name: &str) -> (pipeline: Pipeline)
        ensures
            pipeline@ == (PipelineView { name: name@, config: empty_config() }),
    {
        Pipeline {
            name: String::from_str(name),
            config: PipelineConfig {
                cli_executable: String::new(),
                cli_contract_subcommand: String::new(),
                cli_args: String::new(),
                cli_args_tx: String::new(),
                cli_args_network: String::new(),
                cli_args_store: String::new(),
            },
        }
    }
}

} // verus!
