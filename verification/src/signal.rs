//! The Signal vocabulary that the message component speaks: exchange
//! identifiers, verbs, message requests and replies, and frames. Each type
//! holds as plain values what this component reads of the Signal contract;
//! the binaries convert between these and the wire types.

use vstd::prelude::*;

verus! {

/// Which side of a connection opened an exchange.
#[derive(Debug, Clone, Copy, PartialEq, Eq, Structural)]
pub enum ExchangeLane {
    Connector,
    Acceptor,
}

/// Identifies one request/reply exchange on a connection.
#[derive(Debug, Clone, Copy, PartialEq, Eq, Structural)]
pub struct ExchangeIdentifier {
    pub session_epoch: u64,
    pub lane: ExchangeLane,
    pub sequence: u64,
}

/// A Signal verb, carried by its name.
#[derive(Debug)]
pub struct SignalVerb {
    pub name: String,
}

impl SignalVerb {
    /// A second verb with the same name.
    pub fn duplicate(&self) -> (verb: Self)
        ensures
            verb.name@ == self.name@,
    {
        SignalVerb { name: self.name.clone() }
    }
}

/// A Unix user id, as the kernel reports it.
#[derive(Debug, Clone, Copy, PartialEq, Eq, Structural)]
pub struct UnixUserId {
    pub id: u32,
}

/// Who owns the engine this component belongs to.
#[derive(Debug, Clone, Copy, PartialEq, Eq, Structural)]
pub enum OwnerIdentity {
    UnixUser(UnixUserId),
}

/// How a connection relates to the engine owner.
#[derive(Debug, Clone, Copy, PartialEq, Eq, Structural)]
pub enum ConnectionClass {
    Owner,
    NonOwnerUser(UnixUserId),
}

/// Where a message came from.
#[derive(Debug, Clone, Copy, PartialEq, Eq, Structural)]
pub enum MessageOrigin {
    External(ConnectionClass),
}

/// Nanoseconds since the Unix epoch.
#[derive(Debug, Clone, Copy, PartialEq, Eq, Structural)]
pub struct TimestampNanos {
    pub nanos: u64,
}

/// Slot the router gave an accepted message.
#[derive(Debug, Clone, Copy, PartialEq, Eq, Structural)]
pub struct MessageSlot {
    pub slot: u64,
}

/// The kind of a submitted message.
#[derive(Debug, Clone, Copy, PartialEq, Eq, Structural)]
pub enum MessageKind {
    Send,
}

/// Recipient named in a request.
#[derive(Debug)]
pub struct MessageRecipient {
    pub text: String,
}

/// Body of a message.
#[derive(Debug)]
pub struct MessageBody {
    pub text: String,
}

/// Sender named in an inbox entry.
#[derive(Debug)]
pub struct MessageSender {
    pub text: String,
}

/// A message handed in by a client, without any sender identity.
#[derive(Debug)]
pub struct MessageSubmission {
    pub recipient: MessageRecipient,
    pub kind: MessageKind,
    pub body: MessageBody,
}

/// A submission with the provenance that the daemon attached.
#[derive(Debug)]
pub struct StampedMessageSubmission {
    pub submission: MessageSubmission,
    pub origin: MessageOrigin,
    pub stamped_at: TimestampNanos,
}

/// A query for the messages waiting for a recipient.
#[derive(Debug)]
pub struct InboxQuery {
    pub recipient: MessageRecipient,
}

/// A request of the message contract.
#[derive(Debug)]
pub enum MessageRequest {
    MessageSubmission(MessageSubmission),
    StampedMessageSubmission(StampedMessageSubmission),
    InboxQuery(InboxQuery),
}

/// Why the router refused a submission.
#[derive(Debug, Clone, Copy, PartialEq, Eq, Structural)]
pub enum SubmissionRejectionReason {
    StoreRejected,
    RecipientNotFound,
}

/// The router accepted a submission.
#[derive(Debug, Clone, Copy, PartialEq, Eq, Structural)]
pub struct SubmissionAcceptance {
    pub message_slot: MessageSlot,
}

/// The router refused a submission.
#[derive(Debug, Clone, Copy, PartialEq, Eq, Structural)]
pub struct SubmissionRejection {
    pub reason: SubmissionRejectionReason,
}

/// One message of an inbox listing.
#[derive(Debug)]
pub struct InboxEntry {
    pub message_slot: MessageSlot,
    pub sender: MessageSender,
    pub body: MessageBody,
}

/// The messages waiting for a recipient.
#[derive(Debug)]
pub struct InboxListing {
    pub messages: Vec<InboxEntry>,
}

/// The operation that a component does not carry out.
#[derive(Debug, Clone, Copy, PartialEq, Eq, Structural)]
pub enum MessageOperationKind {
    StampedMessageSubmission,
}

/// Why an operation is not carried out.
#[derive(Debug, Clone, Copy, PartialEq, Eq, Structural)]
pub enum MessageUnimplementedReason {
    NotInPrototypeScope,
}

/// A component's answer that it does not carry out an operation.
#[derive(Debug, Clone, Copy, PartialEq, Eq, Structural)]
pub struct MessageRequestUnimplemented {
    pub operation: MessageOperationKind,
    pub reason: MessageUnimplementedReason,
}

/// A reply of the message contract.
#[derive(Debug)]
pub enum MessageReply {
    SubmissionAccepted(SubmissionAcceptance),
    SubmissionRejected(SubmissionRejection),
    InboxListing(InboxListing),
    MessageRequestUnimplemented(MessageRequestUnimplemented),
}

/// Why the Signal layer refused a request before any operation ran.
#[derive(Debug)]
pub enum RequestRejectionReason {
    VerbPayloadMismatch { index: u64 },
    Other { description: String },
}

/// One operation of a request: a verb and its payload.
#[derive(Debug)]
pub struct Operation {
    pub verb: SignalVerb,
    pub payload: MessageRequest,
}

/// A request as it arrived, with the outcome of the Signal layer's checks.
#[derive(Debug)]
pub struct SignalRequest {
    pub operations: Vec<Operation>,
    pub rejection: Option<RequestRejectionReason>,
}

/// The reply to one operation.
#[derive(Debug)]
pub enum SubReply {
    Succeeded { verb: SignalVerb, payload: MessageReply },
    Other { description: String },
}

/// The reply to a whole request.
#[derive(Debug)]
pub enum SignalReply {
    Accepted { per_operation: Vec<SubReply> },
    Rejected { reason: String },
}

/// What a frame carries.
#[derive(Debug)]
pub enum FrameBody {
    Request { exchange: ExchangeIdentifier, request: SignalRequest },
    Reply { exchange: ExchangeIdentifier, reply: SignalReply },
    Other { description: String },
}

/// One length-prefixed frame of the message protocol.
#[derive(Debug)]
pub struct Frame {
    pub body: FrameBody,
}

impl Frame {
    pub fn new(body: FrameBody) -> (frame: Self)
        ensures
            frame.body == body,
    {
        Frame { body }
    }

    pub fn into_body(self) -> (body: FrameBody)
        ensures
            body == self.body,
    {
        self.body
    }
}

/// The typed configuration that the persona manager hands the message
/// daemon on its command line.
#[derive(Debug)]
pub struct MessageDaemonConfiguration {
    pub message_socket_path: String,
    pub message_socket_mode: u32,
    pub supervision_socket_path: String,
    pub supervision_socket_mode: u32,
    pub router_socket_path: String,
    pub owner_identity: OwnerIdentity,
}

/// What the persona manager tells a component it spawns; the message
/// component reads the engine owner from it.
#[derive(Debug)]
pub struct SpawnEnvelope {
    pub owner_identity: OwnerIdentity,
}

} // verus!
