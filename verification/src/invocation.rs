//! What the engine asks its caller to run, and what the caller hands
//! back: the engine itself never starts a process.

use crate::args::strings_view;
use vstd::prelude::*;
use vstd::string::*;

verus! {

/// Where the standard input of the executable comes from.
#[derive(Debug, Clone, PartialEq, Eq)]
pub enum InputSource {
    /// A pipe that receives the secret and a line terminator, and is then
    /// closed.
    PipedSecret(String),
    /// The caller's own standard input, so that the executable can prompt.
    /// Nothing is ever written to it.
    InheritedInteractive,
}

pub enum InputSourceView {
    PipedSecret(Seq<char>),
    InheritedInteractive,
}

impl View for InputSource {
    type V = InputSourceView;

    open spec fn view(&self) -> InputSourceView {
        match self {
            InputSource::PipedSecret(s) => InputSourceView::PipedSecret(s@),
            InputSource::InheritedInteractive => InputSourceView::InheritedInteractive,
        }
    }
}

/// The input source for an optional secret.
pub open spec fn input_for(secret: Option<Seq<char>>) -> InputSourceView {
    match secret {
        Some(s) => InputSourceView::PipedSecret(s),
        None => InputSourceView::InheritedInteractive,
    }
}

/// What is written to the pipe: the secret and one line feed. `None`
/// where nothing is written.
pub open spec fn payload_of(input: InputSourceView) -> Option<Seq<char>> {
    match input {
        InputSourceView::PipedSecret(s) => Some(s.push('\n')),
        InputSourceView::InheritedInteractive => None,
    }
}

/// The views of an optional string.
pub open spec fn opt_text(s: Option<&str>) -> Option<Seq<char>> {
    match s {
        Some(t) => Some(t@),
        None => None,
    }
}

/// The view of an optional owned string.
pub open spec fn opt_string(s: Option<String>) -> Option<Seq<char>> {
    match s {
        Some(t) => Some(t@),
        None => None,
    }
}

impl InputSource {
    /// Pipes the secret where there is one, inherits otherwise.
    pub fn from_secret(secret: Option<&str>) -> (input: InputSource)
        ensures
            input@ == input_for(opt_text(secret)),
    {
        match secret {
            Some(s) => InputSource::PipedSecret(String::from_str(s)),
            None => InputSource::InheritedInteractive,
        }
    }

    /// The exact text to write to the executable's standard input before
    /// closing it; `None` when standard input is inherited and must not be
    /// written to.
    pub fn payload(&self) -> (text: Option<String>)
        ensures
            text is Some == payload_of(self@) is Some,
            text matches Some(t) ==> payload_of(self@) == Some(t@),
    {
        match self {
            InputSource::PipedSecret(s) => {
                proof {
                    reveal_strlit("\n");
                }
                let line: String = s.clone().concat("\n");
                assert(line@ =~= s@.push('\n'));
                Some(line)
            },
            InputSource::InheritedInteractive => None,
        }
    }
}

/// One run of an executable. Standard output and standard error are
/// always captured.
#[derive(Debug, Clone, PartialEq, Eq)]
pub struct Invocation {
    pub executable: String,
    pub args: Vec<String>,
    pub input: InputSource,
    /// Whether the process starts in the project's root directory rather
    /// than in the caller's working directory.
    pub in_project_root: bool,
}

pub struct InvocationView {
    pub executable: Seq<char>,
    pub args: Seq<Seq<char>>,
    pub input: InputSourceView,
    pub in_project_root: bool,
}

impl View for Invocation {
    type V = InvocationView;

    open spec fn view(&self) -> InvocationView {
        InvocationView {
            executable: self.executable@,
            args: strings_view(self.args@),
            input: self.input@,
            in_project_root: self.in_project_root,
        }
    }
}

/// What a finished process left behind.
#[derive(Debug, Clone, PartialEq, Eq)]
pub struct ProcessOutput {
    pub stdout: Vec<u8>,
    pub stderr: Vec<u8>,
}

/// How a run ended. The exit code is not part of it: failure is read
/// from the output alone.
#[derive(Debug, Clone, PartialEq, Eq)]
pub enum ProcessEvent {
    /// The process ran to its end.
    Exited(ProcessOutput),
    /// The process could not be started; holds the system's message.
    SpawnFailed(String),
}

pub enum ProcessEventView {
    Exited { stdout: Seq<u8>, stderr: Seq<u8> },
    SpawnFailed(Seq<char>),
}

impl View for ProcessEvent {
    type V = ProcessEventView;

    open spec fn view(&self) -> ProcessEventView {
        match self {
            ProcessEvent::Exited(out) => ProcessEventView::Exited {
                stdout: out.stdout@,
                stderr: out.stderr@,
            },
            ProcessEvent::SpawnFailed(m) => ProcessEventView::SpawnFailed(m@),
        }
    }
}

} // verus!
