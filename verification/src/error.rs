use vstd::prelude::*;

use crate::command::Output;
use crate::signal::{
    ExchangeIdentifier, FrameBody, MessageRequestUnimplemented, RequestRejectionReason, SubReply,
};

verus! {

/// What was wrong with a reply that came back from the router.
#[derive(Debug)]
pub enum RouterReplyProblem {
    /// The reply echoed another exchange than the request carried.
    ExchangeMismatch { got: ExchangeIdentifier, expected: ExchangeIdentifier },
    /// The frame was not a reply at all.
    NotAReply { body: FrameBody },
    /// The reply did not hold exactly one operation reply.
    OperationCount { count: usize },
    /// The one operation reply was not a success.
    FailedOperation { sub_reply: SubReply },
    /// The Signal layer refused the whole request.
    Rejected { reason: String },
    /// The router does not carry out the operation.
    Unimplemented { reply: MessageRequestUnimplemented },
}

/// What was wrong with a frame that a client sent to the daemon.
#[derive(Debug)]
pub enum DaemonInputProblem {
    /// The request did not hold exactly one operation.
    OperationCount { count: usize },
    /// The frame was not a request.
    NotARequest { body: FrameBody },
}

/// What an output record lacked, for the output validator, with the record
/// and what was looked for in it.
#[derive(Debug)]
pub enum OutputProblem {
    /// The record was not a submission acceptance.
    ExpectedSubmissionAccepted { got: Output },
    /// The record was not an inbox listing.
    ExpectedRouterInboxListing { got: Output },
    /// No entry had the body, from the sender when one was named.
    MissingInboxEntry { sender: Option<String>, body: String, output: Output },
    /// An entry had the body that should be absent.
    UnexpectedInboxBody { body: String, output: Output },
}

/// What was wrong with the output validator's arguments.
#[allow(inconsistent_fields)]
#[derive(Debug)]
pub enum ValidatorArgumentProblem {
    /// No argument was left where one was needed.
    MissingValue { name: String },
    /// An argument that must be text was not valid UTF-8.
    NotUnicode { name: String, got: String },
    /// Another option stood where a named one was expected.
    ExpectedOption { name: String, got: String },
    /// The expectation word is not one the validator knows.
    UnknownExpectation { got: String },
}

/// Errors of the message component.
#[allow(inconsistent_fields)]
#[derive(Debug)]
pub enum Error {
    InvalidInlineNotaArgument { got: String },
    MissingInput,
    UnexpectedArgument { got: String },
    SignalMessageSocketMissing,
    DaemonFrameTooLarge { bytes: usize },
    UnexpectedRouterReply { got: RouterReplyProblem },
    UnexpectedDaemonInput { got: DaemonInputProblem },
    InvalidSignalRequest { reason: RequestRejectionReason },
    PeerCredentials,
    ClockBeforeUnixEpoch,
    NoMatchingAgent { path: String },
    InvalidProcessId { got: String },
    MissingParentProcess { pid: u32 },
    OutputValidation { detail: OutputProblem },
    InvalidValidatorArgument { detail: ValidatorArgumentProblem },
    UnknownKindForVerb { verb: String, got: String },
}

} // verus!
