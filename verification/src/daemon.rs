use vstd::prelude::*;

use crate::error::Error;
use crate::router::{SignalMessageSocket, SignalRouterClient, SignalRouterFrameCodec, SignalRouterSocket};
use crate::signal::{
    ConnectionClass, MessageDaemonConfiguration, MessageOperationKind, MessageOrigin, MessageReply,
    MessageRequest, MessageRequestUnimplemented, MessageUnimplementedReason, OwnerIdentity,
    SpawnEnvelope, StampedMessageSubmission, TimestampNanos, UnixUserId,
};
use std::time::{Duration, SystemTime, SystemTimeError};

verus! {

/// Permission bits for a listening socket, written in octal.
#[derive(Debug, Clone, Copy, PartialEq, Eq)]
pub struct SocketMode(u32);

impl SocketMode {
    pub closed spec fn bits(self) -> u32 {
        self.0
    }

    pub fn from_octal(value: u32) -> (mode: Self)
        ensures
            mode.bits() == value,
    {
        SocketMode(value)
    }

    pub fn as_octal(self) -> (value: u32)
        ensures
            value == self.bits(),
    {
        self.0
    }
}

/// Everything the message daemon is started with.
#[derive(Debug)]
pub struct MessageDaemonInput {
    pub message_socket: SignalMessageSocket,
    pub message_socket_mode: SocketMode,
    pub router_socket: SignalRouterSocket,
    pub supervision_socket_path: String,
    pub supervision_socket_mode: SocketMode,
    pub owner_identity: OwnerIdentity,
}

/// The message daemon: where it listens, where it forwards, and whose
/// engine it belongs to.
#[derive(Debug)]
pub struct MessageDaemon {
    message_socket: SignalMessageSocket,
    message_socket_mode: SocketMode,
    router_socket: SignalRouterSocket,
    supervision_socket_path: String,
    supervision_socket_mode: SocketMode,
    owner_identity: OwnerIdentity,
}

impl MessageDaemon {
    pub closed spec fn message_socket_spec(&self) -> Seq<char> {
        self.message_socket@
    }

    pub closed spec fn message_socket_mode_spec(&self) -> SocketMode {
        self.message_socket_mode
    }

    pub closed spec fn router_socket_spec(&self) -> Seq<char> {
        self.router_socket@
    }

    pub closed spec fn supervision_socket_path_spec(&self) -> Seq<char> {
        self.supervision_socket_path@
    }

    pub closed spec fn supervision_socket_mode_spec(&self) -> SocketMode {
        self.supervision_socket_mode
    }

    pub closed spec fn owner_identity_spec(&self) -> OwnerIdentity {
        self.owner_identity
    }

    /// The daemon that a typed configuration describes.
    pub fn from_configuration(configuration: MessageDaemonConfiguration) -> (daemon: Self)
        ensures
            daemon.message_socket_spec() == configuration.message_socket_path@,
            daemon.message_socket_mode_spec().bits() == configuration.message_socket_mode,
            daemon.router_socket_spec() == configuration.router_socket_path@,
            daemon.supervision_socket_path_spec() == configuration.supervision_socket_path@,
            daemon.supervision_socket_mode_spec().bits() == configuration.supervision_socket_mode,
            daemon.owner_identity_spec() == configuration.owner_identity,
    {
        MessageDaemon {
            message_socket: SignalMessageSocket::from_path(configuration.message_socket_path),
            message_socket_mode: SocketMode::from_octal(configuration.message_socket_mode),
            router_socket: SignalRouterSocket::from_path(configuration.router_socket_path),
            supervision_socket_path: configuration.supervision_socket_path,
            supervision_socket_mode: SocketMode::from_octal(configuration.supervision_socket_mode),
            owner_identity: configuration.owner_identity,
        }
    }

    /// The daemon that explicit input describes.
    pub fn from_input(input: MessageDaemonInput) -> (daemon: Self)
        ensures
            daemon.message_socket_spec() == input.message_socket@,
            daemon.message_socket_mode_spec() == input.message_socket_mode,
            daemon.router_socket_spec() == input.router_socket@,
            daemon.supervision_socket_path_spec() == input.supervision_socket_path@,
            daemon.supervision_socket_mode_spec() == input.supervision_socket_mode,
            daemon.owner_identity_spec() == input.owner_identity,
    {
        MessageDaemon {
            message_socket: input.message_socket,
            message_socket_mode: input.message_socket_mode,
            router_socket: input.router_socket,
            supervision_socket_path: input.supervision_socket_path,
            supervision_socket_mode: input.supervision_socket_mode,
            owner_identity: input.owner_identity,
        }
    }

    pub fn message_socket(&self) -> (socket: &SignalMessageSocket)
        ensures
            socket@ == self.message_socket_spec(),
    {
        &self.message_socket
    }

    pub fn message_socket_mode(&self) -> (mode: SocketMode)
        ensures
            mode == self.message_socket_mode_spec(),
    {
        self.message_socket_mode
    }

    pub fn supervision_socket_path(&self) -> (path: &String)
        ensures
            path@ == self.supervision_socket_path_spec(),
    {
        &self.supervision_socket_path
    }

    pub fn supervision_socket_mode(&self) -> (mode: SocketMode)
        ensures
            mode == self.supervision_socket_mode_spec(),
    {
        self.supervision_socket_mode
    }

    /// What the daemon's root actor starts from: the router to forward to
    /// and the configured owner, never the daemon's own user.
    pub fn root_input(&self) -> (input: MessageDaemonRootInput)
        ensures
            input.router_socket@ == self.router_socket_spec(),
            input.owner_identity == self.owner_identity_spec(),
    {
        MessageDaemonRootInput {
            router_socket: SignalRouterSocket::from_path(self.router_socket.path().clone()),
            owner_identity: self.owner_identity,
        }
    }
}

/// The kernel's account of who is on the other end of a connection.
#[derive(Debug, Clone, Copy, PartialEq, Eq, Structural)]
pub struct PeerCredentials {
    pub user_id: UnixUserId,
}

impl PeerCredentials {
    pub fn from_user_id(user_id: UnixUserId) -> (peer: Self)
        ensures
            peer.user_id == user_id,
    {
        PeerCredentials { user_id }
    }
}

/// What the daemon does with a client's request.
#[derive(Debug)]
pub enum ForwardDecision {
    /// Send this request on to the router.
    Forward(MessageRequest),
    /// Answer the client at once with this reply.
    Reply(MessageReply),
}

/// The origin that a peer's messages carry for an engine owner: the owner
/// when the peer is the owning Unix user, another user otherwise.
pub open spec fn origin_of(owner: OwnerIdentity, peer: PeerCredentials) -> MessageOrigin {
    match owner {
        OwnerIdentity::UnixUser(user_id) => if peer.user_id == user_id {
            MessageOrigin::External(ConnectionClass::Owner)
        } else {
            MessageOrigin::External(ConnectionClass::NonOwnerUser(peer.user_id))
        },
    }
}

/// The decision for a request from a peer, stamped at `stamped_at`:
/// submissions go on with their provenance, pre-stamped submissions are
/// answered as out of scope, and inbox queries go on unchanged.
pub open spec fn decision_of(
    owner: OwnerIdentity,
    request: MessageRequest,
    peer: PeerCredentials,
    stamped_at: TimestampNanos,
) -> ForwardDecision {
    match request {
        MessageRequest::MessageSubmission(submission) => ForwardDecision::Forward(
            MessageRequest::StampedMessageSubmission(
                StampedMessageSubmission { submission, origin: origin_of(owner, peer), stamped_at },
            ),
        ),
        MessageRequest::StampedMessageSubmission(_) => ForwardDecision::Reply(
            MessageReply::MessageRequestUnimplemented(
                MessageRequestUnimplemented {
                    operation: MessageOperationKind::StampedMessageSubmission,
                    reason: MessageUnimplementedReason::NotInPrototypeScope,
                },
            ),
        ),
        MessageRequest::InboxQuery(query) => ForwardDecision::Forward(MessageRequest::InboxQuery(query)),
    }
}

/// What `stamp_request` may give: a decision stamped at some time, or, for
/// a submission, the clock error.
pub open spec fn is_stamp_outcome(
    owner: OwnerIdentity,
    request: MessageRequest,
    peer: PeerCredentials,
    outcome: Result<ForwardDecision, Error>,
) -> bool {
    match outcome {
        Ok(decision) => exists|stamped_at: TimestampNanos|
            decision == #[trigger] decision_of(owner, request, peer, stamped_at),
        Err(error) => request is MessageSubmission && error == Error::ClockBeforeUnixEpoch,
    }
}

/// Provenance is minted by the daemon, never taken from the client: a
/// submission goes on stamped with the origin that the configured owner and
/// the peer's credentials give, its content unchanged; the peer is the owner
/// exactly when it is the owning Unix user; a request that comes already
/// stamped is never forwarded; an inbox query goes on unchanged.
pub proof fn lemma_stamping_mints_provenance(
    owner: OwnerIdentity,
    request: MessageRequest,
    peer: PeerCredentials,
    stamped_at: TimestampNanos,
)
    ensures
        match request {
            MessageRequest::MessageSubmission(submission) => decision_of(owner, request, peer, stamped_at)
                matches ForwardDecision::Forward(MessageRequest::StampedMessageSubmission(stamped))
                && stamped.submission == submission && stamped.origin == origin_of(owner, peer)
                && stamped.stamped_at == stamped_at,
            MessageRequest::StampedMessageSubmission(_) => decision_of(owner, request, peer, stamped_at) is Reply,
            MessageRequest::InboxQuery(query) => decision_of(owner, request, peer, stamped_at)
                == ForwardDecision::Forward(MessageRequest::InboxQuery(query)),
        },
        match owner {
            OwnerIdentity::UnixUser(user_id) => {
                &&& (origin_of(owner, peer) == MessageOrigin::External(ConnectionClass::Owner)
                    <==> peer.user_id == user_id)
                &&& peer.user_id != user_id ==> origin_of(owner, peer) == MessageOrigin::External(
                    ConnectionClass::NonOwnerUser(peer.user_id),
                )
            },
        },
{
}

/// Attaches provenance to client requests from the configured engine owner.
#[derive(Debug, Clone, Copy, PartialEq, Eq, Structural)]
pub struct MessageOriginStamper {
    pub engine_owner_identity: OwnerIdentity,
}

impl MessageOriginStamper {
    pub fn from_owner_identity(engine_owner_identity: OwnerIdentity) -> (stamper: Self)
        ensures
            stamper.engine_owner_identity == engine_owner_identity,
    {
        MessageOriginStamper { engine_owner_identity }
    }

    /// The stamper for the engine owner that a spawn envelope names.
    pub fn from_spawn_envelope(envelope: SpawnEnvelope) -> (stamper: Self)
        ensures
            stamper.engine_owner_identity == envelope.owner_identity,
    {
        Self::from_owner_identity(envelope.owner_identity)
    }

    /// The decision for a request from `peer`, with `stamped_at` as the
    /// ingress time.
    pub fn stamp_request_at(
        &self,
        request: MessageRequest,
        peer: PeerCredentials,
        stamped_at: TimestampNanos,
    ) -> (decision: ForwardDecision)
        ensures
            decision == decision_of(self.engine_owner_identity, request, peer, stamped_at),
    {
        match request {
            MessageRequest::MessageSubmission(submission) => ForwardDecision::Forward(
                MessageRequest::StampedMessageSubmission(
                    StampedMessageSubmission { submission, origin: self.origin_for_peer(peer), stamped_at },
                ),
            ),
            MessageRequest::StampedMessageSubmission(_) => ForwardDecision::Reply(
                MessageReply::MessageRequestUnimplemented(
                    MessageRequestUnimplemented {
                        operation: MessageOperationKind::StampedMessageSubmission,
                        reason: MessageUnimplementedReason::NotInPrototypeScope,
                    },
                ),
            ),
            MessageRequest::InboxQuery(query) => ForwardDecision::Forward(MessageRequest::InboxQuery(query)),
        }
    }

    /// The decision for a request from `peer`, stamped with the clock's
    /// current time when it is a submission.
    pub fn stamp_request(&self, request: MessageRequest, peer: PeerCredentials) -> (outcome: Result<
        ForwardDecision,
        Error,
    >)
        ensures
            is_stamp_outcome(self.engine_owner_identity, request, peer, outcome),
            !(request is MessageSubmission) ==> outcome is Ok,
    {
        let ghost given = request;
        let stamped_at = if let MessageRequest::MessageSubmission(_) = &request {
            Self::timestamp_now()?
        } else {
            TimestampNanos { nanos: 0 }
        };
        let decision = self.stamp_request_at(request, peer, stamped_at);
        assert(decision == decision_of(self.engine_owner_identity, given, peer, stamped_at));
        Ok(decision)
    }

    /// The origin for `peer`'s messages.
    pub fn origin_for_peer(&self, peer: PeerCredentials) -> (origin: MessageOrigin)
        ensures
            origin == origin_of(self.engine_owner_identity, peer),
    {
        match self.engine_owner_identity {
            OwnerIdentity::UnixUser(user_id) => {
                if peer.user_id == user_id {
                    MessageOrigin::External(ConnectionClass::Owner)
                } else {
                    MessageOrigin::External(ConnectionClass::NonOwnerUser(peer.user_id))
                }
            },
        }
    }

    /// The clock's current time, in nanoseconds since the Unix epoch,
    /// saturated at the largest `u64`.
    pub fn timestamp_now() -> (stamp: Result<TimestampNanos, Error>)
        ensures
            stamp matches Err(error) ==> error == Error::ClockBeforeUnixEpoch,
    {
        let now = system_time_now();
        match duration_since_unix_epoch(&now) {
            Ok(duration) => Ok(TimestampNanos { nanos: saturating_nanos(duration_as_nanos(&duration)) }),
            Err(_) => Err(Error::ClockBeforeUnixEpoch),
        }
    }
}

/// A count of nanoseconds as a `u64`, saturated at the largest `u64`.
pub fn saturating_nanos(nanos: u128) -> (saturated: u64)
    ensures
        nanos <= u64::MAX ==> saturated == nanos,
        nanos > u64::MAX ==> saturated == u64::MAX,
{
    if nanos > u64::MAX as u128 {
        u64::MAX
    } else {
        nanos as u64
    }
}

#[verifier::external_type_specification]
#[verifier::external_body]
pub struct ExSystemTime(SystemTime);

#[verifier::external_type_specification]
#[verifier::external_body]
pub struct ExSystemTimeError(SystemTimeError);

/// Calls `std::time::SystemTime::now`. The clock's reading depends on the
/// moment of the call, so nothing is stated of it.
#[verifier::external_body]
fn system_time_now() -> (now: SystemTime) {
    SystemTime::now()
}

/// Calls `std::time::SystemTime::duration_since` with the Unix epoch, which
/// fails when `now` lies before the epoch. Nothing is stated of the result:
/// both types are opaque here.
#[verifier::external_body]
fn duration_since_unix_epoch(now: &SystemTime) -> (elapsed: Result<Duration, SystemTimeError>) {
    now.duration_since(std::time::UNIX_EPOCH)
}

/// Calls `std::time::Duration::as_nanos`. Nothing is stated of the count:
/// `Duration` is opaque here.
#[verifier::external_body]
fn duration_as_nanos(duration: &Duration) -> (nanos: u128) {
    duration.as_nanos()
}

/// What the daemon's root actor starts from.
#[derive(Debug)]
pub struct MessageDaemonRootInput {
    pub router_socket: SignalRouterSocket,
    pub owner_identity: OwnerIdentity,
}

/// The daemon's root: the router client it forwards through, the stamper,
/// and how many requests it has forwarded.
#[derive(Debug)]
pub struct MessageDaemonRoot {
    router: SignalRouterClient,
    stamper: MessageOriginStamper,
    forwarded_count: u64,
}

impl MessageDaemonRoot {
    pub closed spec fn router_spec(&self) -> SignalRouterClient {
        self.router
    }

    pub closed spec fn stamper_spec(&self) -> MessageOriginStamper {
        self.stamper
    }

    pub closed spec fn forwarded_count_spec(&self) -> u64 {
        self.forwarded_count
    }

    pub fn new(input: MessageDaemonRootInput) -> (root: Self)
        ensures
            root.router_spec().socket()@ == input.router_socket@,
            root.router_spec().codec() == SignalRouterFrameCodec::default_spec(),
            root.stamper_spec().engine_owner_identity == input.owner_identity,
            root.forwarded_count_spec() == 0,
    {
        MessageDaemonRoot {
            router: input.router_socket.client(),
            stamper: MessageOriginStamper::from_owner_identity(input.owner_identity),
            forwarded_count: 0,
        }
    }

    /// The decision for a client's request, stamped from the configured
    /// owner identity and the peer's credentials.
    pub fn stamp_request(&self, request: MessageRequest, peer: PeerCredentials) -> (outcome: Result<
        ForwardDecision,
        Error,
    >)
        ensures
            is_stamp_outcome(self.stamper_spec().engine_owner_identity, request, peer, outcome),
            !(request is MessageSubmission) ==> outcome is Ok,
    {
        self.stamper.stamp_request(request, peer)
    }

    /// The client through which requests are forwarded to the router.
    pub fn router(&self) -> (router: &SignalRouterClient)
        ensures
            *router == self.router_spec(),
    {
        &self.router
    }

    /// Counts one more request that the router answered.
    pub fn record_forwarded(&mut self)
        ensures
            final(self).router_spec() == old(self).router_spec(),
            final(self).stamper_spec() == old(self).stamper_spec(),
            final(self).forwarded_count_spec() == if old(self).forwarded_count_spec() == u64::MAX {
                u64::MAX
            } else {
                (old(self).forwarded_count_spec() + 1) as u64
            },
    {
        self.forwarded_count = self.forwarded_count.saturating_add(1);
    }

    pub fn forwarded_count(&self) -> (count: u64)
        ensures
            count == self.forwarded_count_spec(),
    {
        self.forwarded_count
    }
}

} // verus!
