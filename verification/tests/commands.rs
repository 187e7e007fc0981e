use chain_pipeline::commands::{BuildOutcome, CommandStep, SchemaAction, DOCS_PORT};
use chain_pipeline::scaffold::{PathBase, PlanArg, PlanPath, ScaffoldStep};
use chain_pipeline::{
    CreatePipelineCommand, CustomPipelineProfile, DocgenCommand, Executable, Pipeline, PipelineCommand,
    PipelineConfig, PipelineError, SchemaCommand,
};

fn path(base: PathBase, parts: &[&str]) -> PlanPath {
    PlanPath { base, parts: parts.iter().map(|s| s.to_string()).collect() }
}

fn text(t: &str) -> PlanArg {
    PlanArg::Text(t.to_string())
}

fn say(t: &str) -> ScaffoldStep {
    ScaffoldStep::Say { text: t.to_string(), path: None }
}

fn blank(name: &str) -> Pipeline {
    Pipeline {
        name: name.to_string(),
        config: PipelineConfig {
            cli_executable: String::new(),
            cli_contract_subcommand: String::new(),
            cli_args: String::new(),
            cli_args_tx: String::new(),
            cli_args_network: String::new(),
            cli_args_store: String::new(),
        },
    }
}

#[test]
fn pipeline_template_is_blank_but_for_the_name() {
    assert_eq!(Pipeline::template("osmosis"), blank("osmosis"));
    assert_eq!(Pipeline::template(""), blank(""));
}

#[test]
fn create_pipeline_writes_the_template() {
    let cmd = CreatePipelineCommand { name: "osmosis".to_string() };
    assert_eq!(cmd.file_name(), "osmosis.toml");
    let want = vec![CommandStep::WritePipeline { file_name: "osmosis.toml".to_string(), pipeline: blank("osmosis") }];
    assert_eq!(cmd.plan(true), Ok(want.clone()));
    assert_eq!(cmd.plan(false), Ok(want.clone()));
    assert_eq!(PipelineCommand::Create(cmd).plan(false), Ok(want));
}

#[test]
fn schema_needs_a_project() {
    assert_eq!(SchemaCommand {}.plan(false), Err(PipelineError::ProjectFileNotFound));
    assert_eq!(SchemaCommand {}.plan(true), Ok(vec![CommandStep::GenerateSchemas]));
}

#[test]
fn docgen_serves_unless_told_not_to() {
    assert_eq!(DOCS_PORT, 8008);
    let build = CommandStep::BuildDocs { schema_dir: "schema".to_string() };
    let serve = CommandStep::ServeDocs { schema_file: "openapi.json".to_string(), port: 8008 };
    assert_eq!(
        DocgenCommand { no_serve: false }.plan(true),
        Ok(vec![CommandStep::GenerateSchemas, build.clone(), serve])
    );
    assert_eq!(DocgenCommand { no_serve: true }.plan(true), Ok(vec![CommandStep::GenerateSchemas, build]));
    assert_eq!(DocgenCommand { no_serve: true }.plan(false), Err(PipelineError::ProjectFileNotFound));
    assert_eq!(DocgenCommand { no_serve: false }.plan(false), Err(PipelineError::ProjectFileNotFound));
}

#[test]
fn schema_generator_and_what_follows_it() {
    assert_eq!(SchemaCommand::generator_args(), vec!["run", "--bin", "schema"]);
    let cmd = SchemaCommand {};
    assert_eq!(cmd.after_build("vault", BuildOutcome::CouldNotRun), SchemaAction::SkipNotRun);
    assert_eq!(cmd.after_build("vault", BuildOutcome::Failed), SchemaAction::SkipFailed);
    assert_eq!(
        cmd.after_build("vault", BuildOutcome::Succeeded),
        SchemaAction::Publish {
            source: path(PathBase::ContractDir, &["schema", "vault.json"]),
            destination: path(PathBase::ProjectRoot, &["schema", "vault.json"]),
        }
    );
}

#[test]
fn init_project_plan() {
    let p = CustomPipelineProfile::new(blank("x"));
    assert_eq!(
        p.init_project(),
        vec![
            say("Initializing new workspace..."),
            ScaffoldStep::Run {
                program: "git".to_string(),
                args: vec![
                    text("clone"),
                    text("https://github.com/cw-warp/workspace-template.git"),
                    PlanArg::Path(path(PathBase::Workspace, &[])),
                    text("--branch"),
                    text("chain/juno"),
                ],
                dir: None,
                discard_stdout: true,
                on_failure: Some(PipelineError::InitFailed),
            },
        ]
    );
}

#[test]
fn new_contract_plan() {
    let p = CustomPipelineProfile::new(blank("x"));
    let replace = |parts: &[&str]| ScaffoldStep::Replace {
        file: path(PathBase::ContractDir, parts),
        needle: "<CONTRACT_NAME>".to_string(),
        replacement: "vault".to_string(),
    };
    let want = vec![
        say("[1/2] Downloading contract files..."),
        ScaffoldStep::CreateDirAll(path(PathBase::ContractDir, &[])),
        ScaffoldStep::Run {
            program: "git".to_string(),
            args: vec![
                text("clone"),
                text("--depth=1"),
                text("https://github.com/cw-warp/contract-template.git"),
                PlanArg::Path(path(PathBase::ContractDir, &[])),
                text("--branch"),
                text("chain/juno"),
                text("-q"),
            ],
            dir: None,
            discard_stdout: false,
            on_failure: Some(PipelineError::ContractTemplateCloneFailed),
        },
        ScaffoldStep::RemoveDirAll(path(PathBase::ContractDir, &[".git"])),
        ScaffoldStep::RemoveFile(path(PathBase::ContractDir, &["README.md"])),
        replace(&["Cargo.toml"]),
        replace(&["src", "contract.rs"]),
        replace(&["src", "bin", "schema.rs"]),
        ScaffoldStep::CreateDirAll(path(PathBase::ProjectRoot, &["packages", "shared", "src", "vault"])),
        ScaffoldStep::Write {
            file: path(PathBase::ProjectRoot, &["packages", "shared", "src", "vault", "msg.rs"]),
            contents: "// messages".to_string(),
        },
        ScaffoldStep::Write {
            file: path(PathBase::ProjectRoot, &["packages", "shared", "src", "vault", "mod.rs"]),
            contents: "pub mod msg;".to_string(),
        },
        ScaffoldStep::Say {
            text: "Shared Lib: ".to_string(),
            path: Some(path(PathBase::ProjectRoot, &["packages", "shared", "src", "lib.rs"])),
        },
        ScaffoldStep::AppendLine {
            file: path(PathBase::ProjectRoot, &["packages", "shared", "src", "lib.rs"]),
            line: "pub mod vault;".to_string(),
        },
        say("[2/2] Building the workspace..."),
        ScaffoldStep::Run {
            program: "cargo".to_string(),
            args: vec![text("build")],
            dir: Some(PathBase::ProjectRoot),
            discard_stdout: false,
            on_failure: None,
        },
    ];
    assert_eq!(p.new_contract("vault", "// messages"), want);
}
