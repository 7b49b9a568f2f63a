//! Judging of competitive-programming solutions: the problem model, the queue
//! of received problems, and the rules by which a solution is compiled, run
//! against each test case and given a verdict.

use std::time::Duration;
use vstd::prelude::*;

pub mod utils;

verus! {

/// `Duration::clone`: a `Duration` is `Copy`, and its clone is the value
/// itself.
pub assume_specification[ <Duration as Clone>::clone ](d: &Duration) -> (r: Duration)
    ensures
        r == *d,
;

/// One input fixture and the output that a correct solution prints for it.
#[derive(Clone, Debug, PartialEq, Eq)]
pub struct TestCase {
    pub input: String,
    pub expected_output: String,
}

/// A task definition: its test cases in order, and its resource limits.
///
/// The memory limit is carried along and never enforced.
#[derive(Clone, Debug, PartialEq, Eq)]
pub struct Problem {
    pub name: String,
    pub test_cases: Vec<TestCase>,
    pub time_limit: Duration,
    pub memory_limit: i32,
}

/// A command that the editor offers, under construction: its name and,
/// once given, its description.
#[derive(Clone, Debug, PartialEq, Eq)]
pub struct SlashCommand {
    pub name: String,
    pub description: Option<String>,
}

/// A command as the editor lists it.
#[derive(Clone, Debug, PartialEq, Eq)]
pub struct CommandEntry {
    pub name: String,
    pub tooltip_text: String,
    pub requires_argument: bool,
}

/// The text that a command produced.
#[derive(Clone, Debug, PartialEq, Eq)]
pub struct CommandOutput {
    pub text: String,
}

/// A labelled part of a command's output, and the range of the text that it
/// covers where it covers one.
#[derive(Clone, Debug, PartialEq, Eq)]
pub struct OutputSection {
    pub range: Option<(u32, u32)>,
    pub label: String,
}

/// Makes the entry of a command.
pub struct SlashCommandWrapper;

/// Makes the output of a command.
pub struct SlashCommandOutputWrapper;

/// Makes a section of a command's output.
pub struct SlashCommandOutputSectionWrapper;

/// The two commands that are offered.
#[derive(Clone, Copy, Debug, PartialEq, Eq)]
pub enum CommandKind {
    /// Run the test cases against the current file.
    Test,
    /// Compile the current file.
    Compile,
}

impl SlashCommandWrapper {
    /// The entry of the command `name`: no tooltip, and no argument required.
    pub fn new(name: &str) -> (entry: CommandEntry)
        ensures
            entry.name@ == name@,
            entry.tooltip_text@ == Seq::<char>::empty(),
            !entry.requires_argument,
    {
        CommandEntry {
            name: name.to_owned(),
            tooltip_text: String::new(),
            requires_argument: false,
        }
    }
}

impl SlashCommandOutputWrapper {
    /// An output that holds `text`.
    pub fn new(text: &str) -> (output: CommandOutput)
        ensures
            output.text@ == text@,
    {
        CommandOutput { text: text.to_owned() }
    }
}

impl SlashCommandOutputSectionWrapper {
    /// A section labelled `label` that covers no range.
    pub fn new(label: &str) -> (section: OutputSection)
        ensures
            section.range is None,
            section.label@ == label@,
    {
        OutputSection { range: None, label: label.to_owned() }
    }
}

impl SlashCommand {
    /// A command called `name`, without a description.
    pub fn new(name: &str) -> (command: Self)
        ensures
            command.name@ == name@,
            command.description is None,
    {
        SlashCommand { name: name.to_owned(), description: None }
    }

    /// The same command with `desc` as its description, in place of an
    /// earlier one.
    pub fn description(self, desc: &str) -> (command: Self)
        ensures
            command.name == self.name,
            command.description matches Some(text) && text@ == desc@,
    {
        SlashCommand { name: self.name, description: Some(desc.to_owned()) }
    }

    /// Ends the construction. The command is consumed; nothing else happens.
    pub fn register(self) {
    }
}

impl CommandKind {
    /// The name under which the command is offered.
    pub open spec fn name(self) -> Seq<char> {
        match self {
            CommandKind::Test => "cph.test"@,
            CommandKind::Compile => "cph.compile"@,
        }
    }

    /// What the command says of itself.
    pub open spec fn summary(self) -> Seq<char> {
        match self {
            CommandKind::Test => "Run test cases for the current file"@,
            CommandKind::Compile => "Compile the current solution"@,
        }
    }

    /// The label of the section that closes the command's output: the
    /// success message, or the failure message followed by the error's text.
    pub open spec fn closing_text(self, error: Option<Seq<char>>) -> Seq<char> {
        match (self, error) {
            (CommandKind::Test, None) => "All tests passed"@,
            (CommandKind::Test, Some(text)) => "Error: "@ + text,
            (CommandKind::Compile, None) => "Compilation successful"@,
            (CommandKind::Compile, Some(text)) => "Compilation failed: "@ + text,
        }
    }

    /// The command as it is offered: its name and its description.
    pub fn command(self) -> (command: SlashCommand)
        ensures
            command.name@ == self.name(),
            command.description matches Some(text) && text@ == self.summary(),
    {
        match self {
            CommandKind::Test => SlashCommand::new("cph.test").description(
                "Run test cases for the current file",
            ),
            CommandKind::Compile => SlashCommand::new("cph.compile").description(
                "Compile the current solution",
            ),
        }
    }

    /// The title of the command's output.
    pub fn title(self) -> (title: &'static str)
        ensures
            title@ == (match self {
                CommandKind::Test => "Test Results"@,
                CommandKind::Compile => "Compilation Results"@,
            }),
    {
        match self {
            CommandKind::Test => "Test Results",
            CommandKind::Compile => "Compilation Results",
        }
    }

    /// The section that opens the command's output.
    pub fn opening_section(self) -> (section: OutputSection)
        ensures
            section.range is None,
            section.label@ == (match self {
                CommandKind::Test => "Running tests..."@,
                CommandKind::Compile => "Compiling..."@,
            }),
    {
        match self {
            CommandKind::Test => SlashCommandOutputSectionWrapper::new("Running tests..."),
            CommandKind::Compile => SlashCommandOutputSectionWrapper::new("Compiling..."),
        }
    }

    /// The section that closes the command's output, for a command that went
    /// through (`None`) or failed with an error of the given text.
    pub fn closing_section(self, error: Option<&str>) -> (section: OutputSection)
        ensures
            section.range is None,
            section.label@ == self.closing_text(
                match error {
                    Some(text) => Some(text@),
                    None => None,
                },
            ),
    {
        let label: String = match (self, error) {
            (CommandKind::Test, None) => "All tests passed".to_owned(),
            (CommandKind::Test, Some(text)) => "Error: ".to_owned().concat(text),
            (CommandKind::Compile, None) => "Compilation successful".to_owned(),
            (CommandKind::Compile, Some(text)) => "Compilation failed: ".to_owned().concat(text),
        };
        SlashCommandOutputSectionWrapper::new(label.as_str())
    }
}

} // verus!
