//! Workspace and contract scaffolding, as plans: the files to touch and
//! the programs to run, in order. The caller carries a plan out and
//! stops at the first step that fails.

use crate::args::strings_view;
use crate::error::{PipelineError, PipelineErrorView};
use crate::json::seq_view;
use crate::profile::CustomPipelineProfile;
use vstd::prelude::*;
use vstd::string::*;

verus! {

/// A directory that the caller knows and the plan does not.
#[derive(Debug, Clone, Copy, PartialEq, Eq)]
pub enum PathBase {
    /// The directory of the new workspace.
    Workspace,
    /// The directory of the contract.
    ContractDir,
    /// The root of the project.
    ProjectRoot,
}

/// A path: a base directory and the components to join to it, in order.
#[derive(Debug, Clone, PartialEq, Eq)]
pub struct PlanPath {
    pub base: PathBase,
    pub parts: Vec<String>,
}

pub struct PlanPathView {
    pub base: PathBase,
    pub parts: Seq<Seq<char>>,
}

impl View for PlanPath {
    type V = PlanPathView;

    open spec fn view(&self) -> PlanPathView {
        PlanPathView { base: self.base, parts: strings_view(self.parts@) }
    }
}

/// One argument of a program: a literal, or a path to spell out.
#[derive(Debug, Clone, PartialEq, Eq)]
pub enum PlanArg {
    Text(String),
    Path(PlanPath),
}

pub enum PlanArgView {
    Text(Seq<char>),
    Path(PlanPathView),
}

impl View for PlanArg {
    type V = PlanArgView;

    open spec fn view(&self) -> PlanArgView {
        match self {
            PlanArg::Text(t) => PlanArgView::Text(t@),
            PlanArg::Path(p) => PlanArgView::Path(p@),
        }
    }
}

/// One step of a plan. A step that cannot be carried out ends the plan
/// with the system's error.
#[derive(Debug, Clone, PartialEq, Eq)]
pub enum ScaffoldStep {
    /// Print `text`, followed by `path` where there is one.
    Say { text: String, path: Option<PlanPath> },
    /// Create a directory and its parents.
    CreateDirAll(PlanPath),
    /// Run `program` in the directory `dir`, or in the working directory,
    /// and wait for it. Where it exits unsuccessfully the plan ends with
    /// `on_failure`, or goes on where that is `None`.
    Run {
        program: String,
        args: Vec<PlanArg>,
        dir: Option<PathBase>,
        discard_stdout: bool,
        on_failure: Option<PipelineError>,
    },
    /// Remove a directory and what is in it.
    RemoveDirAll(PlanPath),
    /// Remove a file.
    RemoveFile(PlanPath),
    /// Replace every `needle` in a file by `replacement`.
    Replace { file: PlanPath, needle: String, replacement: String },
    /// Write a file anew.
    Write { file: PlanPath, contents: String },
    /// Append a line to a file.
    AppendLine { file: PlanPath, line: String },
}

pub enum ScaffoldStepView {
    Say { text: Seq<char>, path: Option<PlanPathView> },
    CreateDirAll(PlanPathView),
    Run {
        program: Seq<char>,
        args: Seq<PlanArgView>,
        dir: Option<PathBase>,
        discard_stdout: bool,
        on_failure: Option<PipelineErrorView>,
    },
    RemoveDirAll(PlanPathView),
    RemoveFile(PlanPathView),
    Replace { file: PlanPathView, needle: Seq<char>, replacement: Seq<char> },
    Write { file: PlanPathView, contents: Seq<char> },
    AppendLine { file: PlanPathView, line: Seq<char> },
}

impl View for ScaffoldStep {
    type V = ScaffoldStepView;

    open spec fn view(&self) -> ScaffoldStepView {
        match self {
            ScaffoldStep::Say { text, path } => ScaffoldStepView::Say {
                text: text@,
                path: match path {
                    Some(p) => Some(p@),
                    None => None,
                },
            },
            ScaffoldStep::CreateDirAll(p) => ScaffoldStepView::CreateDirAll(p@),
            ScaffoldStep::Run { program, args, dir, discard_stdout, on_failure } => {
                ScaffoldStepView::Run {
                    program: program@,
                    args: seq_view(args@),
                    dir: *dir,
                    discard_stdout: *discard_stdout,
                    on_failure: match on_failure {
                        Some(e) => Some(e@),
                        None => None,
                    },
                }
            },
            ScaffoldStep::RemoveDirAll(p) => ScaffoldStepView::RemoveDirAll(p@),
            ScaffoldStep::RemoveFile(p) => ScaffoldStepView::RemoveFile(p@),
            ScaffoldStep::Replace { file, needle, replacement } => ScaffoldStepView::Replace {
                file: file@,
                needle: needle@,
                replacement: replacement@,
            },
            ScaffoldStep::Write { file, contents } => ScaffoldStepView::Write {
                file: file@,
                contents: contents@,
            },
            ScaffoldStep::AppendLine { file, line } => ScaffoldStepView::AppendLine {
                file: file@,
                line: line@,
            },
        }
    }
}

/// The path made of `base` and `parts`.
pub open spec fn path_of(base: PathBase, parts: Seq<Seq<char>>) -> PlanPathView {
    PlanPathView { base, parts }
}

/// A literal argument.
pub open spec fn text_arg(t: Seq<char>) -> PlanArgView {
    PlanArgView::Text(t)
}

/// The plan that sets up a new workspace: a clone of the workspace
/// template into the workspace's directory.
pub open spec fn init_project_plan() -> Seq<ScaffoldStepView> {
    seq![
        ScaffoldStepView::Say { text: "Initializing new workspace..."@, path: None },
        ScaffoldStepView::Run {
            program: "git"@,
            args: seq![
                text_arg("clone"@),
                text_arg("https://github.com/cw-warp/workspace-template.git"@),
                PlanArgView::Path(path_of(PathBase::Workspace, Seq::empty())),
                text_arg("--branch"@),
                text_arg("chain/juno"@),
            ],
            dir: None,
            discard_stdout: true,
            on_failure: Some(PipelineErrorView::InitFailed),
        },
    ]
}

/// The marker that the contract template holds in place of a name.
pub open spec fn name_marker() -> Seq<char> {
    "<CONTRACT_NAME>"@
}

/// The plan that adds the contract `name` to a project: the template is
/// cloned and stripped, the name is filled in, the contract's messages
/// are added to the shared package, and the workspace is built.
pub open spec fn new_contract_plan(name: Seq<char>, message_file: Seq<char>) -> Seq<
    ScaffoldStepView,
> {
    let shared = seq!["packages"@, "shared"@, "src"@];
    seq![
        ScaffoldStepView::Say { text: "[1/2] Downloading contract files..."@, path: None },
        ScaffoldStepView::CreateDirAll(path_of(PathBase::ContractDir, Seq::empty())),
        ScaffoldStepView::Run {
            program: "git"@,
            args: seq![
                text_arg("clone"@),
                text_arg("--depth=1"@),
                text_arg("https://github.com/cw-warp/contract-template.git"@),
                PlanArgView::Path(path_of(PathBase::ContractDir, Seq::empty())),
                text_arg("--branch"@),
                text_arg("chain/juno"@),
                text_arg("-q"@),
            ],
            dir: None,
            discard_stdout: false,
            on_failure: Some(PipelineErrorView::ContractTemplateCloneFailed),
        },
        ScaffoldStepView::RemoveDirAll(path_of(PathBase::ContractDir, seq![".git"@])),
        ScaffoldStepView::RemoveFile(path_of(PathBase::ContractDir, seq!["README.md"@])),
        ScaffoldStepView::Replace {
            file: path_of(PathBase::ContractDir, seq!["Cargo.toml"@]),
            needle: name_marker(),
            replacement: name,
        },
        ScaffoldStepView::Replace {
            file: path_of(PathBase::ContractDir, seq!["src"@, "contract.rs"@]),
            needle: name_marker(),
            replacement: name,
        },
        ScaffoldStepView::Replace {
            file: path_of(PathBase::ContractDir, seq!["src"@, "bin"@, "schema.rs"@]),
            needle: name_marker(),
            replacement: name,
        },
        ScaffoldStepView::CreateDirAll(path_of(PathBase::ProjectRoot, shared.push(name))),
        ScaffoldStepView::Write {
            file: path_of(PathBase::ProjectRoot, shared.push(name).push("msg.rs"@)),
            contents: message_file,
        },
        ScaffoldStepView::Write {
            file: path_of(PathBase::ProjectRoot, shared.push(name).push("mod.rs"@)),
            contents: "pub mod msg;"@,
        },
        ScaffoldStepView::Say {
            text: "Shared Lib: "@,
            path: Some(path_of(PathBase::ProjectRoot, shared.push("lib.rs"@))),
        },
        ScaffoldStepView::AppendLine {
            file: path_of(PathBase::ProjectRoot, shared.push("lib.rs"@)),
            line: "pub mod "@ + name + ";"@,
        },
        ScaffoldStepView::Say { text: "[2/2] Building the workspace..."@, path: None },
        ScaffoldStepView::Run {
            program: "cargo"@,
            args: seq![text_arg("build"@)],
            dir: Some(PathBase::ProjectRoot),
            discard_stdout: false,
            on_failure: None,
        },
    ]
}

/// A literal argument.
fn text(t: &str) -> (arg: PlanArg)
    ensures
        arg@ == text_arg(t@),
{
    PlanArg::Text(String::from_str(t))
}

/// The base directory itself.
pub(crate) fn at(base: PathBase) -> (path: PlanPath)
    ensures
        path@ == path_of(base, Seq::empty()),
{
    let path = PlanPath { base, parts: Vec::new() };
    assert(path@.parts =~= Seq::empty());
    path
}

/// A path with one more component.
pub(crate) fn join(path: PlanPath, part: &str) -> (out: PlanPath)
    ensures
        out@ == path_of(path.base, path@.parts.push(part@)),
{
    let mut parts: Vec<String> = path.parts;
    parts.push(String::from_str(part));
    let out = PlanPath { base: path.base, parts };
    assert(out@.parts =~= path@.parts.push(part@));
    out
}

/// A message without a path.
fn say(t: &str) -> (step: ScaffoldStep)
    ensures
        step@ == (ScaffoldStepView::Say { text: t@, path: None }),
{
    ScaffoldStep::Say { text: String::from_str(t), path: None }
}

/// The replacement of the name marker in `file`.
fn fill_in(file: PlanPath, name: &str) -> (step: ScaffoldStep)
    ensures
        step@ == (ScaffoldStepView::Replace {
            file: file@,
            needle: name_marker(),
            replacement: name@,
        }),
{
    ScaffoldStep::Replace {
        file,
        needle: String::from_str("<CONTRACT_NAME>"),
        replacement: String::from_str(name),
    }
}

/// The shared package's source directory.
fn shared_src() -> (path: PlanPath)
    ensures
        path@ == path_of(PathBase::ProjectRoot, seq!["packages"@, "shared"@, "src"@]),
{
    let path = join(join(join(at(PathBase::ProjectRoot), "packages"), "shared"), "src");
    assert(path@.parts =~= seq!["packages"@, "shared"@, "src"@]);
    path
}

impl CustomPipelineProfile {
    /// The plan that sets up a new workspace in the directory that the
    /// caller chose. A clone that fails ends it with `InitFailed`.
    pub fn init_project(&self) -> (plan: Vec<ScaffoldStep>)
        ensures
            seq_view(plan@) == init_project_plan(),
    {
        let mut args: Vec<PlanArg> = Vec::new();
        args.push(text("clone"));
        args.push(text("https://github.com/cw-warp/workspace-template.git"));
        args.push(PlanArg::Path(at(PathBase::Workspace)));
        args.push(text("--branch"));
        args.push(text("chain/juno"));
        let ghost want = init_project_plan();
        assert(seq_view(args@) =~= want[1]->Run_args);
        let mut plan: Vec<ScaffoldStep> = Vec::new();
        plan.push(say("Initializing new workspace..."));
        plan.push(
            ScaffoldStep::Run {
                program: String::from_str("git"),
                args,
                dir: None,
                discard_stdout: true,
                on_failure: Some(PipelineError::InitFailed),
            },
        );
        assert(seq_view(plan@) =~= want);
        plan
    }

    /// The plan that adds the contract `contract_name` to a project.
    /// `message_file` is the text of the contract's message module. A
    /// clone that fails ends the plan with `ContractTemplateCloneFailed`;
    /// how the final build exits is not looked at.
    pub fn new_contract(&self, contract_name: &str, message_file: &str) -> (plan: Vec<ScaffoldStep>)
        ensures
            seq_view(plan@) == new_contract_plan(contract_name@, message_file@),
    {
        let ghost want = new_contract_plan(contract_name@, message_file@);
        let mut clone: Vec<PlanArg> = Vec::new();
        clone.push(text("clone"));
        clone.push(text("--depth=1"));
        clone.push(text("https://github.com/cw-warp/contract-template.git"));
        clone.push(PlanArg::Path(at(PathBase::ContractDir)));
        clone.push(text("--branch"));
        clone.push(text("chain/juno"));
        clone.push(text("-q"));
        assert(seq_view(clone@) =~= want[2]->Run_args);
        let mut build: Vec<PlanArg> = Vec::new();
        build.push(text("build"));
        assert(seq_view(build@) =~= want[14]->Run_args);

        let mut plan: Vec<ScaffoldStep> = Vec::new();
        plan.push(say("[1/2] Downloading contract files..."));
        plan.push(ScaffoldStep::CreateDirAll(at(PathBase::ContractDir)));
        plan.push(
            ScaffoldStep::Run {
                program: String::from_str("git"),
                args: clone,
                dir: None,
                discard_stdout: false,
                on_failure: Some(PipelineError::ContractTemplateCloneFailed),
            },
        );
        plan.push(ScaffoldStep::RemoveDirAll(join(at(PathBase::ContractDir), ".git")));
        plan.push(ScaffoldStep::RemoveFile(join(at(PathBase::ContractDir), "README.md")));
        plan.push(fill_in(join(at(PathBase::ContractDir), "Cargo.toml"), contract_name));
        plan.push(
            fill_in(join(join(at(PathBase::ContractDir), "src"), "contract.rs"), contract_name),
        );
        plan.push(
            fill_in(
                join(join(join(at(PathBase::ContractDir), "src"), "bin"), "schema.rs"),
                contract_name,
            ),
        );
        plan.push(ScaffoldStep::CreateDirAll(join(shared_src(), contract_name)));
        plan.push(
            ScaffoldStep::Write {
                file: join(join(shared_src(), contract_name), "msg.rs"),
                contents: String::from_str(message_file),
            },
        );
        plan.push(
            ScaffoldStep::Write {
                file: join(join(shared_src(), contract_name), "mod.rs"),
                contents: String::from_str("pub mod msg;"),
            },
        );
        plan.push(
            ScaffoldStep::Say {
                text: String::from_str("Shared Lib: "),
                path: Some(join(shared_src(), "lib.rs")),
            },
        );
        let line: String = String::from_str("pub mod ").concat(contract_name).concat(";");
        plan.push(ScaffoldStep::AppendLine { file: join(shared_src(), "lib.rs"), line });
        plan.push(say("[2/2] Building the workspace..."));
        plan.push(
            ScaffoldStep::Run {
                program: String::from_str("cargo"),
                args: build,
                dir: Some(PathBase::ProjectRoot),
                discard_stdout: false,
                on_failure: None,
            },
        );
        assert(seq_view(plan@) =~= want) by {
            assert(seq_view(plan@).len() == want.len());
            assert(seq_view(plan@)[3] == want[3]) by {
                assert(plan@[3]@->RemoveDirAll_0.parts =~= seq![".git"@]);
            }
            assert(seq_view(plan@)[4] == want[4]) by {
                assert(plan@[4]@->RemoveFile_0.parts =~= seq!["README.md"@]);
            }
            assert(seq_view(plan@)[5] == want[5]) by {
                assert(plan@[5]@->Replace_file.parts =~= seq!["Cargo.toml"@]);
            }
            assert(seq_view(plan@)[6] == want[6]) by {
                assert(plan@[6]@->Replace_file.parts =~= seq!["src"@, "contract.rs"@]);
            }
            assert(seq_view(plan@)[7] == want[7]) by {
                assert(plan@[7]@->Replace_file.parts =~= seq!["src"@, "bin"@, "schema.rs"@]);
            }
        }
        plan
    }
}

} // verus!
