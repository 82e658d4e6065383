//! Operations of the gateway and the process arguments that each one maps to.
//!
//! The argument lists are a wire contract with `pyra-cli`: their words, their
//! order and their count are fixed here and nowhere else.

use vstd::prelude::*;
use crate::escape::{
    free_of_escaped_quotes, lemma_unescaped_is_identity_iff, unescape_quotes, unescaped,
};

verus! {

/// The log levels that `pyra-cli logs read` can filter by.
#[derive(Clone, Copy, Debug, PartialEq, Eq)]
pub enum LogLevel {
    Info,
    Debug,
}

impl LogLevel {
    /// The word that names this level on the command line.
    pub open spec fn word(self) -> Seq<char> {
        match self {
            LogLevel::Info => "INFO"@,
            LogLevel::Debug => "DEBUG"@,
        }
    }

    /// The word that names this level on the command line.
    pub fn as_str(self) -> (r: &'static str)
        ensures
            r@ == self.word(),
    {
        match self {
            LogLevel::Info => "INFO",
            LogLevel::Debug => "DEBUG",
        }
    }
}

/// The configuration sections that `pyra-cli config` knows.
#[derive(Clone, Copy, Debug, PartialEq, Eq)]
pub enum ConfigSection {
    Setup,
    Parameters,
}

impl ConfigSection {
    /// The word that names this section on the command line.
    pub open spec fn word(self) -> Seq<char> {
        match self {
            ConfigSection::Setup => "setup"@,
            ConfigSection::Parameters => "parameters"@,
        }
    }

    /// The word that names this section on the command line.
    pub fn as_str(self) -> (r: &'static str)
        ensures
            r@ == self.word(),
    {
        match self {
            ConfigSection::Setup => "setup",
            ConfigSection::Parameters => "parameters",
        }
    }
}

/// A logical operation, as a caller asks for it.
#[derive(Debug, PartialEq, Eq)]
pub enum Operation {
    /// Probe whether the program can be run at all.
    CheckAvailability,
    /// Read the log lines of one level.
    ReadLogs(LogLevel),
    /// Move the current logs to the archive.
    ArchiveLogs,
    /// Read one configuration section.
    ReadConfig(ConfigSection),
    /// Update one configuration section with the given content, in which
    /// the caller has written every double quote as `\"`.
    UpdateConfig(ConfigSection, String),
}

/// An operation as a mathematical value.
pub enum OperationView {
    CheckAvailability,
    ReadLogs(LogLevel),
    ArchiveLogs,
    ReadConfig(ConfigSection),
    UpdateConfig(ConfigSection, Seq<char>),
}

impl View for Operation {
    type V = OperationView;

    open spec fn view(&self) -> OperationView {
        match *self {
            Operation::CheckAvailability => OperationView::CheckAvailability,
            Operation::ReadLogs(level) => OperationView::ReadLogs(level),
            Operation::ArchiveLogs => OperationView::ArchiveLogs,
            Operation::ReadConfig(section) => OperationView::ReadConfig(section),
            Operation::UpdateConfig(section, content) => OperationView::UpdateConfig(
                section,
                content@,
            ),
        }
    }
}

impl Clone for Operation {
    fn clone(&self) -> (r: Operation)
        ensures
            r@ == self@,
    {
        match self {
            Operation::CheckAvailability => Operation::CheckAvailability,
            Operation::ReadLogs(level) => Operation::ReadLogs(*level),
            Operation::ArchiveLogs => Operation::ArchiveLogs,
            Operation::ReadConfig(section) => Operation::ReadConfig(*section),
            Operation::UpdateConfig(section, content) => Operation::UpdateConfig(
                *section,
                content.clone(),
            ),
        }
    }
}

impl OperationView {
    /// The words that the operation itself determines.
    pub open spec fn fixed_arguments(self) -> Seq<Seq<char>> {
        match self {
            OperationView::CheckAvailability => seq!["--help"@],
            OperationView::ReadLogs(level) => seq!["logs"@, "read"@, "--level"@, level.word()],
            OperationView::ArchiveLogs => seq!["logs"@, "archive"@],
            OperationView::ReadConfig(section) => seq!["config"@, section.word(), "get"@],
            OperationView::UpdateConfig(section, _) => seq![
                "config"@,
                section.word(),
                "update"@,
                "--content"@,
            ],
        }
    }

    /// The values that the caller supplied, as they are forwarded: the
    /// content of an update with its escaped quotes collapsed, each value one
    /// argument of its own.
    pub open spec fn supplied_arguments(self) -> Seq<Seq<char>> {
        match self {
            OperationView::UpdateConfig(_, content) => seq![unescaped(content)],
            _ => Seq::empty(),
        }
    }

    /// The full argument list: the fixed words, then the supplied values.
    pub open spec fn arguments(self) -> Seq<Seq<char>> {
        self.fixed_arguments() + self.supplied_arguments()
    }
}

/// Every operation maps to one argument list, whose words, order and count
/// are these.
pub proof fn lemma_argument_lists(level: LogLevel, section: ConfigSection, content: Seq<char>)
    ensures
        OperationView::CheckAvailability.arguments() == seq!["--help"@],
        OperationView::ReadLogs(level).arguments() == seq![
            "logs"@,
            "read"@,
            "--level"@,
            level.word(),
        ],
        OperationView::ArchiveLogs.arguments() == seq!["logs"@, "archive"@],
        OperationView::ReadConfig(section).arguments() == seq!["config"@, section.word(), "get"@],
        OperationView::UpdateConfig(section, content).arguments() == seq![
            "config"@,
            section.word(),
            "update"@,
            "--content"@,
            unescaped(content),
        ],
{
}

/// Content that holds no `\"` is forwarded by an update exactly as it was
/// given, as the one argument after the fixed words.
pub proof fn lemma_update_forwards_plain_content(section: ConfigSection, content: Seq<char>)
    requires
        free_of_escaped_quotes(content),
    ensures
        OperationView::UpdateConfig(section, content).arguments() == seq![
            "config"@,
            section.word(),
            "update"@,
            "--content"@,
            content,
        ],
{
    lemma_unescaped_is_identity_iff(content);
}

/// One fully specified request to run the program.
#[derive(Debug, PartialEq, Eq)]
pub struct Invocation {
    operation: Operation,
    arguments: Vec<String>,
}

/// An invocation as a mathematical value.
pub struct InvocationView {
    pub operation: OperationView,
    pub arguments: Seq<Seq<char>>,
}

impl View for Invocation {
    type V = InvocationView;

    closed spec fn view(&self) -> InvocationView {
        InvocationView { operation: self.operation@, arguments: self.arguments.deep_view() }
    }
}

impl Clone for Invocation {
    fn clone(&self) -> (r: Invocation)
        ensures
            r@ == self@,
    {
        proof {
            use_type_invariant(self);
        }
        let operation = self.operation.clone();
        let arguments = self.arguments.clone();
        Invocation { operation, arguments }
    }
}

impl Invocation {
    /// Every invocation carries exactly the arguments of its operation.
    #[verifier::type_invariant]
    spec fn well_formed(self) -> bool {
        self.arguments.deep_view() == self.operation@.arguments()
    }

    /// Builds the invocation for `operation`.
    pub fn new(operation: Operation) -> (r: Invocation)
        ensures
            r@.operation == operation@,
            r@.arguments == operation@.arguments(),
    {
        let mut arguments: Vec<String> = Vec::new();
        match &operation {
            Operation::CheckAvailability => {
                arguments.push("--help".to_owned());
            },
            Operation::ReadLogs(level) => {
                arguments.push("logs".to_owned());
                arguments.push("read".to_owned());
                arguments.push("--level".to_owned());
                arguments.push(level.as_str().to_owned());
            },
            Operation::ArchiveLogs => {
                arguments.push("logs".to_owned());
                arguments.push("archive".to_owned());
            },
            Operation::ReadConfig(section) => {
                arguments.push("config".to_owned());
                arguments.push(section.as_str().to_owned());
                arguments.push("get".to_owned());
            },
            Operation::UpdateConfig(section, content) => {
                arguments.push("config".to_owned());
                arguments.push(section.as_str().to_owned());
                arguments.push("update".to_owned());
                arguments.push("--content".to_owned());
                arguments.push(unescape_quotes(content.as_str()));
            },
        }
        assert(arguments.deep_view() =~= operation@.arguments());
        Invocation { operation, arguments }
    }

    /// The operation that this invocation was built for.
    pub fn operation(&self) -> (r: &Operation)
        ensures
            r@ == self@.operation,
    {
        &self.operation
    }

    /// The arguments to hand to the program, in order.
    pub fn arguments(&self) -> (r: &Vec<String>)
        ensures
            r.deep_view() == self@.arguments,
            self@.arguments == self@.operation.arguments(),
    {
        proof {
            use_type_invariant(self);
        }
        &self.arguments
    }
}

} // verus!
