//! From what a finished process left behind to what the caller is told.
//!
//! Running the program is not done here. Whoever runs it reports an
//! [`ExecutionOutcome`]; [`respond`] maps it to a [`GatewayResponse`], which
//! is either the decoded standard output or a failure with its kind.

use vstd::prelude::*;
use vstd::utf8::*;
use crate::bytes::{decode_text, starts_with};
use crate::encoding::lemma_encode_prefix;
use crate::escape::free_of_escaped_quotes;
use crate::operation::{
    lemma_update_forwards_plain_content, ConfigSection, Operation, OperationView,
};

verus! {

/// The first line that `pyra-cli --help` prints.
pub const USAGE_BANNER: &'static str = "Usage: pyra-cli [OPTIONS] COMMAND [ARGS]...";

/// The detail of a failure of kind [`ErrorKind::DecodeFailed`].
pub const DECODE_FAILED_DETAIL: &'static str = "standard output is not valid UTF-8";

/// The detail of a failure of kind [`ErrorKind::Timeout`].
pub const TIMEOUT_DETAIL: &'static str = "the program did not exit within the allotted time";

/// The text that stands in for the output of a failed update of the setup
/// section, where a caller wants plain text.
pub const UPDATE_SETUP_PLACEHOLDER: &'static str = "nope";

/// What a process that ran to its end left behind.
#[derive(Debug, PartialEq, Eq)]
pub struct ExecutionResult {
    pub exit_status: i32,
    pub stdout: Vec<u8>,
    pub stderr: Vec<u8>,
}

/// An execution result as a mathematical value.
pub struct ExecutionResultView {
    pub exit_status: int,
    pub stdout: Seq<u8>,
    pub stderr: Seq<u8>,
}

impl View for ExecutionResult {
    type V = ExecutionResultView;

    open spec fn view(&self) -> ExecutionResultView {
        ExecutionResultView {
            exit_status: self.exit_status as int,
            stdout: self.stdout@,
            stderr: self.stderr@,
        }
    }
}

/// How one attempt to run an invocation ended.
#[derive(Debug, PartialEq, Eq)]
pub enum ExecutionOutcome {
    /// The process ran and exited.
    Completed(ExecutionResult),
    /// The operating system could not start the process; the text says why.
    SpawnFailed(String),
    /// The process was still running when the allotted time was over.
    TimedOut,
}

/// An execution outcome as a mathematical value.
pub enum ExecutionOutcomeView {
    Completed(ExecutionResultView),
    SpawnFailed(Seq<char>),
    TimedOut,
}

impl View for ExecutionOutcome {
    type V = ExecutionOutcomeView;

    open spec fn view(&self) -> ExecutionOutcomeView {
        match *self {
            ExecutionOutcome::Completed(result) => ExecutionOutcomeView::Completed(result@),
            ExecutionOutcome::SpawnFailed(detail) => ExecutionOutcomeView::SpawnFailed(detail@),
            ExecutionOutcome::TimedOut => ExecutionOutcomeView::TimedOut,
        }
    }
}

/// Why an operation failed.
#[derive(Clone, Copy, Debug, PartialEq, Eq)]
pub enum ErrorKind {
    /// The operating system could not start the process.
    SpawnFailed,
    /// The process ran and exited with a status other than zero.
    NonZeroExit,
    /// The standard output of the process is not valid UTF-8.
    DecodeFailed,
    /// The process did not exit within the allotted time.
    Timeout,
}

/// What the caller is told.
#[derive(Debug, PartialEq, Eq)]
pub enum GatewayResponse {
    /// The decoded standard output of the process.
    Success(String),
    /// The kind of failure and a text that describes it.
    Failure(ErrorKind, String),
}

/// A response as a mathematical value.
pub enum GatewayResponseView {
    Success(Seq<char>),
    Failure(ErrorKind, Seq<char>),
}

impl View for GatewayResponse {
    type V = GatewayResponseView;

    open spec fn view(&self) -> GatewayResponseView {
        match *self {
            GatewayResponse::Success(payload) => GatewayResponseView::Success(payload@),
            GatewayResponse::Failure(kind, detail) => GatewayResponseView::Failure(kind, detail@),
        }
    }
}

/// The text that `bytes` encode, or the empty text where they encode none.
pub open spec fn text_or_empty(bytes: Seq<u8>) -> Seq<char> {
    if valid_utf8(bytes) {
        decode_utf8(bytes)
    } else {
        Seq::empty()
    }
}

impl ExecutionOutcomeView {
    /// The response that this outcome calls for.
    ///
    /// A process that could not be started or did not exit in time fails
    /// with that kind. A process that exited fails with `NonZeroExit` when
    /// its status is not zero, the detail being its standard error as far as
    /// that is text; else with `DecodeFailed` when its standard output is not
    /// valid UTF-8; else it succeeds with its standard output, decoded.
    pub open spec fn response(self) -> GatewayResponseView {
        match self {
            ExecutionOutcomeView::SpawnFailed(detail) => GatewayResponseView::Failure(
                ErrorKind::SpawnFailed,
                detail,
            ),
            ExecutionOutcomeView::TimedOut => GatewayResponseView::Failure(
                ErrorKind::Timeout,
                TIMEOUT_DETAIL@,
            ),
            ExecutionOutcomeView::Completed(result) => if result.exit_status != 0 {
                GatewayResponseView::Failure(ErrorKind::NonZeroExit, text_or_empty(result.stderr))
            } else if !valid_utf8(result.stdout) {
                GatewayResponseView::Failure(ErrorKind::DecodeFailed, DECODE_FAILED_DETAIL@)
            } else {
                GatewayResponseView::Success(decode_utf8(result.stdout))
            },
        }
    }

    /// True when the process ran, exited with status zero and printed valid
    /// UTF-8 that begins with the usage banner, byte for byte.
    pub open spec fn shows_banner(self) -> bool {
        &&& self matches ExecutionOutcomeView::Completed(result)
        &&& result.exit_status == 0
        &&& valid_utf8(result.stdout)
        &&& encode_utf8(USAGE_BANNER@).is_prefix_of(result.stdout)
    }
}

impl GatewayResponseView {
    /// True for a success whose payload begins with the usage banner.
    pub open spec fn confirms_availability(self) -> bool {
        self matches GatewayResponseView::Success(payload) && USAGE_BANNER@.is_prefix_of(payload)
    }

    /// The plain text that stands for this response to `operation`: the
    /// payload of a success, the placeholder of the operation for a failure.
    pub open spec fn text_for(self, operation: OperationView) -> Seq<char> {
        match self {
            GatewayResponseView::Success(payload) => payload,
            GatewayResponseView::Failure(_, _) => operation.failure_placeholder(),
        }
    }
}

impl OperationView {
    /// The text that stands in for the output of this operation when it
    /// failed: `nope` for an update of the setup section, else nothing.
    pub open spec fn failure_placeholder(self) -> Seq<char> {
        match self {
            OperationView::UpdateConfig(ConfigSection::Setup, _) => UPDATE_SETUP_PLACEHOLDER@,
            _ => Seq::empty(),
        }
    }
}

/// Decodes `bytes` as text, or gives the empty text where they are none.
fn decode_or_empty(bytes: Vec<u8>) -> (r: String)
    ensures
        r@ == text_or_empty(bytes@),
{
    match decode_text(bytes) {
        Some(text) => text,
        None => String::new(),
    }
}

/// Maps the outcome of an execution to the response for the caller.
pub fn respond(outcome: ExecutionOutcome) -> (r: GatewayResponse)
    ensures
        r@ == outcome@.response(),
{
    match outcome {
        ExecutionOutcome::SpawnFailed(detail) => GatewayResponse::Failure(
            ErrorKind::SpawnFailed,
            detail,
        ),
        ExecutionOutcome::TimedOut => GatewayResponse::Failure(
            ErrorKind::Timeout,
            TIMEOUT_DETAIL.to_owned(),
        ),
        ExecutionOutcome::Completed(result) => {
            if result.exit_status != 0 {
                GatewayResponse::Failure(ErrorKind::NonZeroExit, decode_or_empty(result.stderr))
            } else {
                match decode_text(result.stdout) {
                    Some(payload) => GatewayResponse::Success(payload),
                    None => GatewayResponse::Failure(
                        ErrorKind::DecodeFailed,
                        DECODE_FAILED_DETAIL.to_owned(),
                    ),
                }
            }
        },
    }
}

impl GatewayResponse {
    /// Tells whether this response to an availability probe shows that the
    /// program can be run: it is a success and begins with the usage banner.
    pub fn confirms_availability(&self) -> (r: bool)
        ensures
            r == self@.confirms_availability(),
    {
        match self {
            GatewayResponse::Success(payload) => {
                proof {
                    lemma_encode_prefix(USAGE_BANNER@, payload@);
                }
                starts_with(payload.as_str().as_bytes(), USAGE_BANNER.as_bytes())
            },
            GatewayResponse::Failure(_, _) => false,
        }
    }

    /// Turns this response to `operation` into plain text: the payload of a
    /// success, the placeholder of the operation for a failure.
    pub fn into_text(self, operation: &Operation) -> (r: String)
        ensures
            r@ == self@.text_for(operation@),
    {
        match self {
            GatewayResponse::Success(payload) => payload,
            GatewayResponse::Failure(_, _) => match operation {
                Operation::UpdateConfig(ConfigSection::Setup, _) => {
                    UPDATE_SETUP_PLACEHOLDER.to_owned()
                },
                _ => String::new(),
            },
        }
    }
}

/// An availability probe is answered with `true` exactly when the process
/// ran, exited with status zero, and its standard output is valid UTF-8 that
/// begins with the usage banner byte for byte. A process that could not be
/// started, ran out of time, exited with another status or printed anything
/// else is answered with `false`.
pub proof fn lemma_availability(outcome: ExecutionOutcomeView)
    ensures
        outcome.response().confirms_availability() <==> outcome.shows_banner(),
{
    if let ExecutionOutcomeView::Completed(result) = outcome {
        if result.exit_status == 0 && valid_utf8(result.stdout) {
            decode_utf8_encode_utf8(result.stdout);
            lemma_encode_prefix(USAGE_BANNER@, decode_utf8(result.stdout));
        }
    }
}

/// Writing back a configuration that was just read hands the program the
/// bytes that it printed: where the text read holds no `\"`, the update of
/// either section forwards it unchanged, as its last argument.
pub proof fn lemma_read_then_update_round_trip(section: ConfigSection, read: ExecutionOutcomeView)
    requires
        read.response() matches GatewayResponseView::Success(payload) && free_of_escaped_quotes(
            payload,
        ),
    ensures
        read matches ExecutionOutcomeView::Completed(result) && ({
            let payload = read.response()->Success_0;
            let forwarded = OperationView::UpdateConfig(section, payload).arguments();
            &&& forwarded.len() == 5
            &&& forwarded[4] == payload
            &&& encode_utf8(forwarded[4]) == result.stdout
        }),
{
    let payload = read.response()->Success_0;
    lemma_update_forwards_plain_content(section, payload);
    decode_utf8_encode_utf8(read->Completed_0.stdout);
}

/// The kind of a failure tells how the execution ended, and a success
/// tells that it ended well: the process ran, exited with status zero and
/// printed valid UTF-8.
pub proof fn lemma_failure_kinds(outcome: ExecutionOutcomeView)
    ensures
        match outcome.response() {
            GatewayResponseView::Success(_) => {
                &&& outcome matches ExecutionOutcomeView::Completed(result)
                &&& result.exit_status == 0
                &&& valid_utf8(result.stdout)
            },
            GatewayResponseView::Failure(kind, _) => match kind {
                ErrorKind::SpawnFailed => outcome is SpawnFailed,
                ErrorKind::Timeout => outcome is TimedOut,
                ErrorKind::NonZeroExit => {
                    &&& outcome matches ExecutionOutcomeView::Completed(result)
                    &&& result.exit_status != 0
                },
                ErrorKind::DecodeFailed => {
                    &&& outcome matches ExecutionOutcomeView::Completed(result)
                    &&& result.exit_status == 0
                    &&& !valid_utf8(result.stdout)
                },
            },
        },
{
}

} // verus!
