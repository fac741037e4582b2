//! How the two tools are called on each platform.
//!
//! On Windows the tools are batch scripts, and a batch script cannot be
//! started as a process of its own: it has to be handed to the command
//! interpreter. Everywhere else the tool is started under its plain name. The
//! programs and the leading arguments are fixed here; no text of a caller ever
//! becomes a program name.

use vstd::prelude::*;
use crate::path::{FsPath, PathPartModel};

verus! {

/// The host platform, as far as starting a tool depends on it.
#[derive(Clone, Copy, Debug, PartialEq, Eq, Structural)]
pub enum Platform {
    Windows,
    Other,
}

/// The tools the pipelines call.
#[derive(Clone, Copy, Debug, PartialEq, Eq, Structural)]
pub enum Tool {
    /// yarn, which installs the bundler.
    PackageManager,
    /// webpack.
    Bundler,
}

/// One argument of a command line.
#[derive(Debug, PartialEq, Eq)]
pub enum Argument {
    Text(String),
    Path(FsPath),
}

/// Mathematical value of an [`Argument`].
pub enum ArgumentModel {
    Text(Seq<char>),
    Path(Seq<PathPartModel>),
}

impl DeepView for Argument {
    type V = ArgumentModel;

    open spec fn deep_view(&self) -> ArgumentModel {
        match self {
            Argument::Text(text) => ArgumentModel::Text(text@),
            Argument::Path(path) => ArgumentModel::Path(path.deep_view()),
        }
    }
}

/// A command line: the program to start and its arguments in order.
#[derive(Debug, PartialEq, Eq)]
pub struct Invocation {
    pub program: String,
    pub args: Vec<Argument>,
}

/// Mathematical value of an [`Invocation`].
pub struct InvocationModel {
    pub program: Seq<char>,
    pub args: Seq<ArgumentModel>,
}

impl DeepView for Invocation {
    type V = InvocationModel;

    open spec fn deep_view(&self) -> InvocationModel {
        InvocationModel { program: self.program@, args: self.args.deep_view() }
    }
}

impl InvocationModel {
    /// The same command line with one more argument at the end.
    pub open spec fn with(self, argument: ArgumentModel) -> InvocationModel {
        InvocationModel { program: self.program, args: self.args.push(argument) }
    }

    /// The same command line with one more plain argument at the end.
    pub open spec fn with_text(self, text: Seq<char>) -> InvocationModel {
        self.with(ArgumentModel::Text(text))
    }

    /// The same command line with one more path at the end.
    pub open spec fn with_path(self, path: Seq<PathPartModel>) -> InvocationModel {
        self.with(ArgumentModel::Path(path))
    }
}

impl Invocation {
    /// Appends a plain argument.
    pub fn with_text(self, text: &str) -> (longer: Invocation)
        ensures
            longer.deep_view() == self.deep_view().with_text(text@),
    {
        let mut longer = self;
        longer.args.push(Argument::Text(String::from_str(text)));
        assert(longer.deep_view().args =~= self.deep_view().args.push(ArgumentModel::Text(text@)));
        longer
    }

    /// Appends a path.
    pub fn with_path(self, path: FsPath) -> (longer: Invocation)
        ensures
            longer.deep_view() == self.deep_view().with_path(path.deep_view()),
    {
        let mut longer = self;
        let ghost wanted = ArgumentModel::Path(path.deep_view());
        longer.args.push(Argument::Path(path));
        assert(longer.deep_view().args =~= self.deep_view().args.push(wanted));
        longer
    }
}

/// The name of the file that holds a tool.
pub open spec fn executable_name(tool: Tool, platform: Platform) -> Seq<char> {
    match (platform, tool) {
        (Platform::Windows, Tool::PackageManager) => "yarn.cmd"@,
        (Platform::Windows, Tool::Bundler) => "webpack.cmd"@,
        (Platform::Other, Tool::PackageManager) => "yarn"@,
        (Platform::Other, Tool::Bundler) => "webpack"@,
    }
}

/// The command line that looks for a tool: the bare file name with the version
/// flag, never by way of the command interpreter. It is only good for telling
/// a missing file from everything else.
pub open spec fn probe_invocation(tool: Tool, platform: Platform) -> InvocationModel {
    InvocationModel {
        program: executable_name(tool, platform),
        args: seq![ArgumentModel::Text("-v"@)],
    }
}

/// The command line that runs a tool, before any argument of the task at hand.
/// On Windows the batch script is handed to the command interpreter.
pub open spec fn tool_invocation(tool: Tool, platform: Platform) -> InvocationModel {
    match platform {
        Platform::Windows => InvocationModel {
            program: "cmd"@,
            args: seq![
                ArgumentModel::Text("/k"@),
                ArgumentModel::Text(executable_name(tool, Platform::Windows)),
            ],
        },
        Platform::Other => InvocationModel {
            program: executable_name(tool, Platform::Other),
            args: Seq::empty(),
        },
    }
}

impl Tool {
    /// The name of the file that holds this tool on `platform`.
    pub fn executable(self, platform: Platform) -> (name: &'static str)
        ensures
            name@ == executable_name(self, platform),
    {
        match (platform, self) {
            (Platform::Windows, Tool::PackageManager) => "yarn.cmd",
            (Platform::Windows, Tool::Bundler) => "webpack.cmd",
            (Platform::Other, Tool::PackageManager) => "yarn",
            (Platform::Other, Tool::Bundler) => "webpack",
        }
    }

    /// The command line that runs this tool on `platform`.
    pub fn command(self, platform: Platform) -> (command: Invocation)
        ensures
            command.deep_view() == tool_invocation(self, platform),
    {
        match platform {
            Platform::Windows => {
                let shell = Invocation { program: String::from_str("cmd"), args: Vec::new() };
                assert(shell.deep_view().args =~= Seq::empty());
                let command = shell.with_text("/k").with_text(self.executable(Platform::Windows));
                assert(command.deep_view().args =~= tool_invocation(self, platform).args);
                command
            },
            Platform::Other => {
                let command = Invocation {
                    program: String::from_str(self.executable(Platform::Other)),
                    args: Vec::new(),
                };
                assert(command.deep_view().args =~= Seq::empty());
                command
            },
        }
    }
}

/// The command line that runs the package manager.
pub fn yarn_command(platform: Platform) -> (command: Invocation)
    ensures
        command.deep_view() == tool_invocation(Tool::PackageManager, platform),
{
    Tool::PackageManager.command(platform)
}

/// The command line that runs the bundler.
pub fn webpack_command(platform: Platform) -> (command: Invocation)
    ensures
        command.deep_view() == tool_invocation(Tool::Bundler, platform),
{
    Tool::Bundler.command(platform)
}

/// The command line that looks for `tool`.
pub fn probe_command(tool: Tool, platform: Platform) -> (command: Invocation)
    ensures
        command.deep_view() == probe_invocation(tool, platform),
{
    let bare = Invocation { program: String::from_str(tool.executable(platform)), args: Vec::new() };
    assert(bare.deep_view().args =~= Seq::empty());
    let command = bare.with_text("-v");
    assert(command.deep_view().args =~= probe_invocation(tool, platform).args);
    command
}

} // verus!
