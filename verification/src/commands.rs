//! The commands around the engine, as plans: what each command asks its
//! caller to do, in order. Files are written and programs are run by the
//! caller.

use crate::config::{empty_config, Pipeline, PipelineView};
use crate::error::{PipelineError, PipelineErrorView};
use crate::json::seq_view;
use crate::scaffold::{at, join, path_of, PathBase, PlanPath, PlanPathView};
use vstd::prelude::*;
use vstd::string::*;

verus! {

/// The port on which generated documentation is served.
pub const DOCS_PORT: u16 = 8008;

/// One thing that a command asks its caller to do.
#[derive(Debug, Clone, PartialEq, Eq)]
pub enum CommandStep {
    /// Generate the schema of every contract of the project.
    GenerateSchemas,
    /// Build the documentation from the schemas in `schema_dir`, a
    /// directory under the project's root.
    BuildDocs { schema_dir: String },
    /// Serve the documentation described by `schema_file`, a file under
    /// the project's root.
    ServeDocs { schema_file: String, port: u16 },
    /// Write `pipeline` to `file_name` in the working directory.
    WritePipeline { file_name: String, pipeline: Pipeline },
}

pub enum CommandStepView {
    GenerateSchemas,
    BuildDocs { schema_dir: Seq<char> },
    ServeDocs { schema_file: Seq<char>, port: u16 },
    WritePipeline { file_name: Seq<char>, pipeline: PipelineView },
}

impl View for CommandStep {
    type V = CommandStepView;

    open spec fn view(&self) -> CommandStepView {
        match self {
            CommandStep::GenerateSchemas => CommandStepView::GenerateSchemas,
            CommandStep::BuildDocs { schema_dir } => CommandStepView::BuildDocs {
                schema_dir: schema_dir@,
            },
            CommandStep::ServeDocs { schema_file, port } => CommandStepView::ServeDocs {
                schema_file: schema_file@,
                port: *port,
            },
            CommandStep::WritePipeline { file_name, pipeline } => CommandStepView::WritePipeline {
                file_name: file_name@,
                pipeline: pipeline@,
            },
        }
    }
}

/// The view of a plan or of the failure to make one.
pub open spec fn plan_view(r: Result<Vec<CommandStep>, PipelineError>) -> Result<
    Seq<CommandStepView>,
    PipelineErrorView,
> {
    match r {
        Ok(steps) => Ok(seq_view(steps@)),
        Err(e) => Err(e@),
    }
}

/// A command that can say what it will do.
pub trait Executable {
    /// The steps of the command, given whether it runs inside a project.
    spec fn plan_spec(&self, in_project: bool) -> Result<Seq<CommandStepView>, PipelineErrorView>;

    /// The steps of the command, in the order in which they are to be
    /// carried out; a step is tried only if every step before it
    /// succeeded.
    fn plan(&self, in_project: bool) -> (r: Result<Vec<CommandStep>, PipelineError>)
        ensures
            plan_view(r) == self.plan_spec(in_project),
    ;
}

/// Generates the schema of every contract of the project.
#[derive(Debug, Clone, PartialEq, Eq)]
pub struct SchemaCommand {}

/// Generates the documentation of the project and, unless told not to,
/// serves it.
#[derive(Debug, Clone, PartialEq, Eq)]
pub struct DocgenCommand {
    /// Do not serve the generated documentation.
    pub no_serve: bool,
}

/// Writes a pipeline configuration to fill in by hand.
#[derive(Debug, Clone, PartialEq, Eq)]
pub struct CreatePipelineCommand {
    pub name: String,
}

/// The commands on pipeline configurations.
#[derive(Debug, Clone, PartialEq, Eq)]
pub enum PipelineCommand {
    /// Create a new pipeline configuration file template.
    Create(CreatePipelineCommand),
}

/// How the schema generator of one contract ended.
#[derive(Debug, Clone, Copy, PartialEq, Eq)]
pub enum BuildOutcome {
    /// It could not be started.
    CouldNotRun,
    /// It ran and exited unsuccessfully.
    Failed,
    /// It ran and exited successfully.
    Succeeded,
}

/// What to do with one contract once its schema generator has ended.
#[derive(Debug, Clone, PartialEq, Eq)]
pub enum SchemaAction {
    /// Report that the generator could not be run, and go on with the
    /// next contract.
    SkipNotRun,
    /// Report that the generator failed, and go on with the next
    /// contract.
    SkipFailed,
    /// Copy `source` to `destination`, replacing what is there, and
    /// report success.
    Publish { source: PlanPath, destination: PlanPath },
}

pub enum SchemaActionView {
    SkipNotRun,
    SkipFailed,
    Publish { source: PlanPathView, destination: PlanPathView },
}

impl View for SchemaAction {
    type V = SchemaActionView;

    open spec fn view(&self) -> SchemaActionView {
        match self {
            SchemaAction::SkipNotRun => SchemaActionView::SkipNotRun,
            SchemaAction::SkipFailed => SchemaActionView::SkipFailed,
            SchemaAction::Publish { source, destination } => SchemaActionView::Publish {
                source: source@,
                destination: destination@,
            },
        }
    }
}

/// What follows the schema generator of the contract `name`: a contract
/// whose generator did not succeed is skipped; the schema of any other
/// goes from the contract's `schema` directory to the project's.
pub open spec fn schema_action_of(name: Seq<char>, outcome: BuildOutcome) -> SchemaActionView {
    match outcome {
        BuildOutcome::CouldNotRun => SchemaActionView::SkipNotRun,
        BuildOutcome::Failed => SchemaActionView::SkipFailed,
        BuildOutcome::Succeeded => SchemaActionView::Publish {
            source: path_of(PathBase::ContractDir, seq!["schema"@, name + ".json"@]),
            destination: path_of(PathBase::ProjectRoot, seq!["schema"@, name + ".json"@]),
        },
    }
}

impl SchemaCommand {
    /// The arguments with which `cargo` generates a contract's schema,
    /// run in the contract's directory.
    pub fn generator_args() -> (args: Vec<String>)
        ensures
            crate::args::strings_view(args@) == seq!["run"@, "--bin"@, "schema"@],
    {
        let mut args: Vec<String> = Vec::new();
        args.push(String::from_str("run"));
        args.push(String::from_str("--bin"));
        args.push(String::from_str("schema"));
        assert(crate::args::strings_view(args@) =~= seq!["run"@, "--bin"@, "schema"@]);
        args
    }

    /// What to do with the contract `contract_name` once its schema
    /// generator has ended as `outcome`.
    pub fn after_build(&self, contract_name: &str, outcome: BuildOutcome) -> (action: SchemaAction)
        ensures
            action@ == schema_action_of(contract_name@, outcome),
    {
        match outcome {
            BuildOutcome::CouldNotRun => SchemaAction::SkipNotRun,
            BuildOutcome::Failed => SchemaAction::SkipFailed,
            BuildOutcome::Succeeded => {
                let file: String = String::from_str(contract_name).concat(".json");
                let source = join(join(at(PathBase::ContractDir), "schema"), file.as_str());
                let destination = join(join(at(PathBase::ProjectRoot), "schema"), file.as_str());
                assert(source@.parts =~= seq!["schema"@, contract_name@ + ".json"@]);
                assert(destination@.parts =~= seq!["schema"@, contract_name@ + ".json"@]);
                SchemaAction::Publish { source, destination }
            },
        }
    }
}

impl Executable for SchemaCommand {
    open spec fn plan_spec(&self, in_project: bool) -> Result<
        Seq<CommandStepView>,
        PipelineErrorView,
    > {
        if in_project {
            Ok(seq![CommandStepView::GenerateSchemas])
        } else {
            Err(PipelineErrorView::ProjectFileNotFound)
        }
    }

    fn plan(&self, in_project: bool) -> (r: Result<Vec<CommandStep>, PipelineError>) {
        if !in_project {
            return Err(PipelineError::ProjectFileNotFound);
        }
        let mut steps: Vec<CommandStep> = Vec::new();
        steps.push(CommandStep::GenerateSchemas);
        assert(seq_view(steps@) =~= seq![CommandStepView::GenerateSchemas]);
        Ok(steps)
    }
}

impl Executable for DocgenCommand {
    open spec fn plan_spec(&self, in_project: bool) -> Result<
        Seq<CommandStepView>,
        PipelineErrorView,
    > {
        if !in_project {
            Err(PipelineErrorView::ProjectFileNotFound)
        } else if self.no_serve {
            Ok(
                seq![
                    CommandStepView::GenerateSchemas,
                    CommandStepView::BuildDocs { schema_dir: "schema"@ },
                ],
            )
        } else {
            Ok(
                seq![
                    CommandStepView::GenerateSchemas,
                    CommandStepView::BuildDocs { schema_dir: "schema"@ },
                    CommandStepView::ServeDocs { schema_file: "openapi.json"@, port: DOCS_PORT },
                ],
            )
        }
    }

    fn plan(&self, in_project: bool) -> (r: Result<Vec<CommandStep>, PipelineError>) {
        if !in_project {
            return Err(PipelineError::ProjectFileNotFound);
        }
        let mut steps: Vec<CommandStep> = Vec::new();
        steps.push(CommandStep::GenerateSchemas);
        steps.push(CommandStep::BuildDocs { schema_dir: String::from_str("schema") });
        if !self.no_serve {
            steps.push(
                CommandStep::ServeDocs {
                    schema_file: String::from_str("openapi.json"),
                    port: DOCS_PORT,
                },
            );
        }
        assert(Ok::<Seq<CommandStepView>, PipelineErrorView>(seq_view(steps@)) =~= self.plan_spec(
            in_project,
        )) by {
            let want = self.plan_spec(in_project)->Ok_0;
            assert(seq_view(steps@) =~= want);
        }
        Ok(steps)
    }
}

impl CreatePipelineCommand {
    /// The name of the file that the command writes: the pipeline's name
    /// with the extension `.toml`.
    pub fn file_name(&self) -> (name: String)
        ensures
            name@ == self.name@ + ".toml"@,
    {
        self.name.clone().concat(".toml")
    }
}

impl Executable for CreatePipelineCommand {
    open spec fn plan_spec(&self, in_project: bool) -> Result<
        Seq<CommandStepView>,
        PipelineErrorView,
    > {
        Ok(
            seq![
                CommandStepView::WritePipeline {
                    file_name: self.name@ + ".toml"@,
                    pipeline: PipelineView { name: self.name@, config: empty_config() },
                },
            ],
        )
    }

    fn plan(&self, in_project: bool) -> (r: Result<Vec<CommandStep>, PipelineError>) {
        let mut steps: Vec<CommandStep> = Vec::new();
        steps.push(
            CommandStep::WritePipeline {
                file_name: self.file_name(),
                pipeline: Pipeline::template(self.name.as_str()),
            },
        );
        assert(seq_view(steps@) =~= self.plan_spec(in_project)->Ok_0);
        Ok(steps)
    }
}

impl Executable for PipelineCommand {
    open spec fn plan_spec(&self, in_project: bool) -> Result<
        Seq<CommandStepView>,
        PipelineErrorView,
    > {
        match self {
            PipelineCommand::Create(cmd) => cmd.plan_spec(in_project),
        }
    }

    fn plan(&self, in_project: bool) -> (r: Result<Vec<CommandStep>, PipelineError>) {
        match self {
            PipelineCommand::Create(cmd) => cmd.plan(in_project),
        }
    }
}

} // verus!
