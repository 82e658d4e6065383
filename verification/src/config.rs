//! Where the program is found, and the command line that runs an invocation.
//!
//! Nothing about the location of `pyra-cli` is compiled in. The caller reads
//! its settings from wherever it keeps them and hands them to
//! [`GatewayConfig::resolve`], which applies one rule: a location given
//! explicitly wins over the one below the installation directory.

use vstd::prelude::*;
use crate::operation::Invocation;

verus! {

/// Where the interpreter lies below the installation directory.
pub const INTERPRETER_BELOW_INSTALL_DIR: &'static str = "/.venv/bin/python";

/// Where the entry-point script lies below the installation directory.
pub const ENTRY_POINT_BELOW_INSTALL_DIR: &'static str = "/packages/cli/main.py";

/// The message for [`ConfigError::MissingInterpreter`].
pub const MISSING_INTERPRETER_MESSAGE: &'static str =
    "neither the interpreter of pyra-cli nor the installation directory is configured";

/// The message for [`ConfigError::MissingEntryPoint`].
pub const MISSING_ENTRY_POINT_MESSAGE: &'static str =
    "neither the entry point of pyra-cli nor the installation directory is configured";

/// The settings that every invocation is run with.
#[derive(Debug, PartialEq, Eq)]
pub struct GatewayConfig {
    /// The interpreter that runs the program.
    pub interpreter: String,
    /// The script that the interpreter is started with.
    pub entry_point: String,
    /// The time in milliseconds after which a running process is given up.
    pub timeout_ms: u64,
}

/// The settings as a mathematical value.
pub struct GatewayConfigView {
    pub interpreter: Seq<char>,
    pub entry_point: Seq<char>,
    pub timeout_ms: u64,
}

impl View for GatewayConfig {
    type V = GatewayConfigView;

    open spec fn view(&self) -> GatewayConfigView {
        GatewayConfigView {
            interpreter: self.interpreter@,
            entry_point: self.entry_point@,
            timeout_ms: self.timeout_ms,
        }
    }
}

/// A setting without which the program cannot be located.
#[derive(Clone, Copy, Debug, PartialEq, Eq)]
pub enum ConfigError {
    /// Neither the interpreter nor the installation directory is given.
    MissingInterpreter,
    /// Neither the entry point nor the installation directory is given.
    MissingEntryPoint,
}

impl ConfigError {
    /// What to tell the person who has to supply the missing setting.
    pub open spec fn message(self) -> Seq<char> {
        match self {
            ConfigError::MissingInterpreter => MISSING_INTERPRETER_MESSAGE@,
            ConfigError::MissingEntryPoint => MISSING_ENTRY_POINT_MESSAGE@,
        }
    }

    /// What to tell the person who has to supply the missing setting.
    pub fn describe(self) -> (r: &'static str)
        ensures
            r@ == self.message(),
    {
        match self {
            ConfigError::MissingInterpreter => MISSING_INTERPRETER_MESSAGE,
            ConfigError::MissingEntryPoint => MISSING_ENTRY_POINT_MESSAGE,
        }
    }
}

/// A program and the arguments to start it with, each argument on its own.
#[derive(Debug, PartialEq, Eq)]
pub struct CommandLine {
    pub program: String,
    pub arguments: Vec<String>,
}

/// A command line as a mathematical value.
pub struct CommandLineView {
    pub program: Seq<char>,
    pub arguments: Seq<Seq<char>>,
}

impl View for CommandLine {
    type V = CommandLineView;

    open spec fn view(&self) -> CommandLineView {
        CommandLineView { program: self.program@, arguments: self.arguments.deep_view() }
    }
}

/// True when a setting is given and not empty.
pub open spec fn is_given(setting: Option<Seq<char>>) -> bool {
    setting matches Some(text) && text.len() > 0
}

/// The location that the settings name: the explicit one where it is given,
/// else `relative` below the installation directory where that is given.
pub open spec fn location(
    explicit: Option<Seq<char>>,
    install_dir: Option<Seq<char>>,
    relative: Seq<char>,
) -> Option<Seq<char>> {
    if is_given(explicit) {
        explicit
    } else if is_given(install_dir) {
        Some(install_dir->0 + relative)
    } else {
        None
    }
}

/// The configuration that the settings resolve to, or the first location
/// that they leave open.
pub open spec fn resolution(
    interpreter: Option<Seq<char>>,
    entry_point: Option<Seq<char>>,
    install_dir: Option<Seq<char>>,
    timeout_ms: u64,
) -> Result<GatewayConfigView, ConfigError> {
    match location(interpreter, install_dir, INTERPRETER_BELOW_INSTALL_DIR@) {
        None => Err(ConfigError::MissingInterpreter),
        Some(interpreter) => match location(
            entry_point,
            install_dir,
            ENTRY_POINT_BELOW_INSTALL_DIR@,
        ) {
            None => Err(ConfigError::MissingEntryPoint),
            Some(entry_point) => Ok(GatewayConfigView { interpreter, entry_point, timeout_ms }),
        },
    }
}

/// Resolves one location.
fn locate(explicit: Option<String>, install_dir: &Option<String>, relative: &str) -> (r: Option<
    String,
>)
    ensures
        r.deep_view() == location(explicit.deep_view(), install_dir.deep_view(), relative@),
{
    if let Some(path) = explicit {
        if !path.as_str().is_empty() {
            return Some(path);
        }
    }
    if let Some(dir) = install_dir {
        if !dir.as_str().is_empty() {
            return Some(dir.clone().concat(relative));
        }
    }
    None
}

impl GatewayConfig {
    /// Resolves the settings of the caller to a configuration.
    ///
    /// Each of the two locations is the explicit one where that is given,
    /// else the one below the installation directory. A setting that is
    /// empty counts as not given.
    pub fn resolve(
        interpreter: Option<String>,
        entry_point: Option<String>,
        install_dir: Option<String>,
        timeout_ms: u64,
    ) -> (r: Result<GatewayConfig, ConfigError>)
        ensures
            match r {
                Ok(config) => resolution(
                    interpreter.deep_view(),
                    entry_point.deep_view(),
                    install_dir.deep_view(),
                    timeout_ms,
                ) == Ok::<GatewayConfigView, ConfigError>(config@),
                Err(error) => resolution(
                    interpreter.deep_view(),
                    entry_point.deep_view(),
                    install_dir.deep_view(),
                    timeout_ms,
                ) == Err::<GatewayConfigView, ConfigError>(error),
            },
    {
        let interpreter = match locate(interpreter, &install_dir, INTERPRETER_BELOW_INSTALL_DIR) {
            Some(path) => path,
            None => {
                return Err(ConfigError::MissingInterpreter);
            },
        };
        let entry_point = match locate(entry_point, &install_dir, ENTRY_POINT_BELOW_INSTALL_DIR) {
            Some(path) => path,
            None => {
                return Err(ConfigError::MissingEntryPoint);
            },
        };
        Ok(GatewayConfig { interpreter, entry_point, timeout_ms })
    }

    /// The command line that runs `invocation`: the interpreter as the
    /// program, then the entry point and the arguments of the invocation,
    /// one by one and in their order.
    pub fn command_line(&self, invocation: &Invocation) -> (r: CommandLine)
        ensures
            r@.program == self@.interpreter,
            r@.arguments == seq![self@.entry_point] + invocation@.arguments,
    {
        let forwarded = invocation.arguments();
        let mut arguments: Vec<String> = Vec::new();
        arguments.push(self.entry_point.clone());
        let mut i: usize = 0;
        while i < forwarded.len()
            invariant
                i <= forwarded.len(),
                arguments.len() == i + 1,
                arguments[0]@ == self@.entry_point,
                forall|k: int| 0 <= k < i ==> arguments[k + 1]@ == forwarded[k]@,
            decreases forwarded.len() - i,
        {
            arguments.push(forwarded[i].clone());
            i += 1;
        }
        assert(arguments.deep_view() =~= seq![self@.entry_point] + forwarded.deep_view());
        CommandLine { program: self.interpreter.clone(), arguments }
    }
}

} // verus!
