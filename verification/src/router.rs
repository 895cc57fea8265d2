use vstd::prelude::*;

use crate::error::{DaemonInputProblem, Error, RouterReplyProblem};
use crate::text::{parse_usize, parsed_usize};
use crate::signal::{
    ExchangeIdentifier, Frame, FrameBody, MessageReply, MessageRequest, Operation, SignalReply,
    SignalRequest, SignalVerb, SubReply,
};

verus! {

/// Largest frame body, in bytes, that a codec made by `default` accepts.
pub const DEFAULT_MAXIMUM_FRAME_BYTES: usize = 1048576;

/// The router's internal socket.
#[derive(Debug)]
pub struct SignalRouterSocket {
    path: String,
}

impl View for SignalRouterSocket {
    type V = Seq<char>;

    closed spec fn view(&self) -> Seq<char> {
        self.path@
    }
}

impl SignalRouterSocket {
    pub fn from_path(path: String) -> (socket: Self)
        ensures
            socket@ == path@,
    {
        SignalRouterSocket { path }
    }

    pub fn path(&self) -> (path: &String)
        ensures
            path@ == self@,
    {
        &self.path
    }

    /// The router's socket among the peers that the supervisor announced.
    pub fn from_peer_environment(environment: &PeerSocketEnvironment) -> (socket: Option<Self>)
        ensures
            match first_router_peer(environment.peers()) {
                Some(i) => socket is Some && socket->0@ == environment.peers()[i].socket_path@,
                None => socket is None,
            },
    {
        environment.router_socket()
    }

    /// A client that talks to this socket with the default codec.
    pub fn client(&self) -> (client: SignalRouterClient)
        ensures
            client.socket()@ == self@,
            client.codec() == SignalRouterFrameCodec::default_spec(),
    {
        SignalRouterClient::from_socket(SignalRouterSocket { path: self.path.clone() })
    }
}

/// The message daemon's client-facing socket.
#[derive(Debug)]
pub struct SignalMessageSocket {
    path: String,
}

impl View for SignalMessageSocket {
    type V = Seq<char>;

    closed spec fn view(&self) -> Seq<char> {
        self.path@
    }
}

impl SignalMessageSocket {
    pub fn from_path(path: String) -> (socket: Self)
        ensures
            socket@ == path@,
    {
        SignalMessageSocket { path }
    }

    pub fn path(&self) -> (path: &String)
        ensures
            path@ == self@,
    {
        &self.path
    }

    /// A client that talks to this socket with the default codec.
    pub fn client(&self) -> (client: SignalMessageClient)
        ensures
            client.socket()@ == self@,
            client.codec() == SignalRouterFrameCodec::default_spec(),
    {
        SignalMessageClient::from_socket(SignalMessageSocket { path: self.path.clone() })
    }
}

/// A client of the message daemon's socket.
#[derive(Debug)]
pub struct SignalMessageClient {
    socket: SignalMessageSocket,
    codec: SignalRouterFrameCodec,
}

impl SignalMessageClient {
    pub closed spec fn socket(&self) -> SignalMessageSocket {
        self.socket
    }

    pub closed spec fn codec(&self) -> SignalRouterFrameCodec {
        self.codec
    }

    pub fn from_socket(socket: SignalMessageSocket) -> (client: Self)
        ensures
            client.socket() == socket,
            client.codec() == SignalRouterFrameCodec::default_spec(),
    {
        SignalMessageClient { socket, codec: SignalRouterFrameCodec::default() }
    }

    pub fn socket_path(&self) -> (path: &String)
        ensures
            path@ == self.socket()@,
    {
        self.socket.path()
    }

    pub fn frame_codec(&self) -> (codec: SignalRouterFrameCodec)
        ensures
            codec == self.codec(),
    {
        self.codec
    }
}

/// A client of the router's internal socket.
#[derive(Debug)]
pub struct SignalRouterClient {
    socket: SignalRouterSocket,
    codec: SignalRouterFrameCodec,
}

impl SignalRouterClient {
    pub closed spec fn socket(&self) -> SignalRouterSocket {
        self.socket
    }

    pub closed spec fn codec(&self) -> SignalRouterFrameCodec {
        self.codec
    }

    pub fn from_socket(socket: SignalRouterSocket) -> (client: Self)
        ensures
            client.socket() == socket,
            client.codec() == SignalRouterFrameCodec::default_spec(),
    {
        SignalRouterClient { socket, codec: SignalRouterFrameCodec::default() }
    }

    pub fn socket_path(&self) -> (path: &String)
        ensures
            path@ == self.socket()@,
    {
        self.socket.path()
    }

    pub fn frame_codec(&self) -> (codec: SignalRouterFrameCodec)
        ensures
            codec == self.codec(),
    {
        self.codec
    }
}

/// The big-endian number that a four-byte length prefix spells.
pub open spec fn big_endian_u32(prefix: Seq<u8>) -> int {
    prefix[0] * 16777216 + prefix[1] * 65536 + prefix[2] * 256 + prefix[3]
}

/// A request that the daemon received: the exchange it came on, its one
/// operation's verb, and the payload.
#[derive(Debug)]
pub struct ReceivedMessageRequest {
    pub exchange: ExchangeIdentifier,
    pub verb: SignalVerb,
    pub request: MessageRequest,
}

/// What `request_from_frame` gives for a frame.
pub open spec fn received_request_of(frame: Frame) -> Result<ReceivedMessageRequest, Error> {
    match frame.body {
        FrameBody::Request { exchange, request } => match request.rejection {
            Some(reason) => Err(Error::InvalidSignalRequest { reason }),
            None => if request.operations@.len() == 1 {
                Ok(
                    ReceivedMessageRequest {
                        exchange,
                        verb: request.operations@[0].verb,
                        request: request.operations@[0].payload,
                    },
                )
            } else {
                Err(
                    Error::UnexpectedDaemonInput {
                        got: DaemonInputProblem::OperationCount {
                            count: request.operations@.len() as usize,
                        },
                    },
                )
            },
        },
        _ => Err(Error::UnexpectedDaemonInput { got: DaemonInputProblem::NotARequest { body: frame.body } }),
    }
}

/// What a Signal reply yields as the one message reply it should carry.
pub open spec fn payload_of(reply: SignalReply) -> Result<MessageReply, Error> {
    match reply {
        SignalReply::Accepted { per_operation } => if per_operation@.len() == 1 {
            match per_operation@[0] {
                SubReply::Succeeded { verb, payload } => Ok(payload),
                other => Err(
                    Error::UnexpectedRouterReply {
                        got: RouterReplyProblem::FailedOperation { sub_reply: other },
                    },
                ),
            }
        } else {
            Err(
                Error::UnexpectedRouterReply {
                    got: RouterReplyProblem::OperationCount { count: per_operation@.len() as usize },
                },
            )
        },
        SignalReply::Rejected { reason } => Err(
            Error::UnexpectedRouterReply { got: RouterReplyProblem::Rejected { reason } },
        ),
    }
}

/// What `reply_from_frame` gives for a frame: the reply's payload, whatever
/// exchange it names.
pub open spec fn reply_of(frame: Frame) -> Result<MessageReply, Error> {
    match frame.body {
        FrameBody::Reply { exchange, reply } => payload_of(reply),
        _ => Err(Error::UnexpectedRouterReply { got: RouterReplyProblem::NotAReply { body: frame.body } }),
    }
}

/// What `reply_from_frame_for_exchange` gives for a frame and the exchange
/// that the request carried.
pub open spec fn reply_for_exchange_of(frame: Frame, expected: ExchangeIdentifier) -> Result<
    MessageReply,
    Error,
> {
    match frame.body {
        FrameBody::Reply { exchange, reply } => if exchange == expected {
            payload_of(reply)
        } else {
            Err(
                Error::UnexpectedRouterReply {
                    got: RouterReplyProblem::ExchangeMismatch { got: exchange, expected },
                },
            )
        },
        _ => Err(Error::UnexpectedRouterReply { got: RouterReplyProblem::NotAReply { body: frame.body } }),
    }
}

/// Whether a frame is the completed reply, on `exchange`, of one operation
/// with verb `verb` that answered `reply`.
pub open spec fn is_reply_frame(
    frame: Frame,
    exchange: ExchangeIdentifier,
    verb: SignalVerb,
    reply: MessageReply,
) -> bool {
    match frame.body {
        FrameBody::Reply { exchange: e, reply: SignalReply::Accepted { per_operation } } => {
            &&& e == exchange
            &&& per_operation@ == seq![SubReply::Succeeded { verb, payload: reply }]
        },
        _ => false,
    }
}

/// Reads and writes the length-prefixed frames of the message protocol.
#[derive(Debug, Clone, Copy, PartialEq, Eq, Structural)]
pub struct SignalRouterFrameCodec {
    pub maximum_frame_bytes: usize,
}

impl SignalRouterFrameCodec {
    pub open spec fn default_spec() -> Self {
        SignalRouterFrameCodec { maximum_frame_bytes: DEFAULT_MAXIMUM_FRAME_BYTES }
    }

    pub fn new(maximum_frame_bytes: usize) -> (codec: Self)
        ensures
            codec.maximum_frame_bytes == maximum_frame_bytes,
    {
        SignalRouterFrameCodec { maximum_frame_bytes }
    }

    /// The body length that a frame's four-byte big-endian prefix announces,
    /// refused when it is larger than this codec accepts.
    pub fn frame_body_length(&self, prefix: [u8; 4]) -> (length: Result<usize, Error>)
        ensures
            big_endian_u32(prefix@) <= self.maximum_frame_bytes ==> length == Ok::<usize, Error>(
                big_endian_u32(prefix@) as usize,
            ),
            big_endian_u32(prefix@) > self.maximum_frame_bytes ==> length == Err::<usize, Error>(
                Error::DaemonFrameTooLarge { bytes: big_endian_u32(prefix@) as usize },
            ),
    {
        let value: u32 = (prefix[0] as u32) * 16777216 + (prefix[1] as u32) * 65536 + (prefix[2] as u32)
            * 256 + (prefix[3] as u32);
        let length: usize = value as usize;
        if length > self.maximum_frame_bytes {
            return Err(Error::DaemonFrameTooLarge { bytes: length });
        }
        Ok(length)
    }

    /// The buffer into which a whole frame is read: the prefix, then room
    /// for the announced body.
    pub fn frame_buffer(&self, prefix: [u8; 4], length: usize) -> (buffer: Vec<u8>)
        requires
            length <= usize::MAX - 4,
        ensures
            buffer@ == prefix@ + Seq::new(length as nat, |i: int| 0u8),
    {
        let mut buffer: Vec<u8> = Vec::with_capacity(4 + length);
        buffer.push(prefix[0]);
        buffer.push(prefix[1]);
        buffer.push(prefix[2]);
        buffer.push(prefix[3]);
        let mut index: usize = 0;
        while index < length
            invariant
                index <= length,
                buffer@ == prefix@ + Seq::new(index as nat, |i: int| 0u8),
            decreases length - index,
        {
            buffer.push(0u8);
            index = index + 1;
            assert(buffer@ =~= prefix@ + Seq::new(index as nat, |i: int| 0u8));
        }
        buffer
    }

    /// Takes the one message request out of a request frame.
    pub fn request_from_frame(&self, frame: Frame) -> (received: Result<ReceivedMessageRequest, Error>)
        ensures
            received == received_request_of(frame),
    {
        match frame.into_body() {
            FrameBody::Request { exchange, request } => {
                if let Some(reason) = request.rejection {
                    return Err(Error::InvalidSignalRequest { reason });
                }
                let mut operations = request.operations;
                let count = operations.len();
                if count != 1 {
                    return Err(
                        Error::UnexpectedDaemonInput {
                            got: DaemonInputProblem::OperationCount { count },
                        },
                    );
                }
                let operation = operations.pop().unwrap();
                Ok(ReceivedMessageRequest { exchange, verb: operation.verb, request: operation.payload })
            },
            other => Err(Error::UnexpectedDaemonInput { got: DaemonInputProblem::NotARequest { body: other } }),
        }
    }

    /// The completed reply frame that answers one operation on `exchange`.
    pub fn reply_frame(
        &self,
        exchange: ExchangeIdentifier,
        verb: SignalVerb,
        reply: MessageReply,
    ) -> (frame: Frame)
        ensures
            is_reply_frame(frame, exchange, verb, reply),
    {
        let mut per_operation: Vec<SubReply> = Vec::new();
        per_operation.push(SubReply::Succeeded { verb, payload: reply });
        Frame::new(FrameBody::Reply { exchange, reply: SignalReply::Accepted { per_operation } })
    }

    /// The message reply that a reply frame carries, whatever exchange it
    /// names.
    pub fn reply_from_frame(&self, frame: Frame) -> (reply: Result<MessageReply, Error>)
        ensures
            reply == reply_of(frame),
    {
        self.reply_from_frame_without_exchange_check(frame)
    }

    /// The message reply that a reply frame carries, accepted only when the
    /// frame echoes the exchange that the request carried.
    pub fn reply_from_frame_for_exchange(
        &self,
        frame: Frame,
        expected: ExchangeIdentifier,
    ) -> (reply: Result<MessageReply, Error>)
        ensures
            reply == reply_for_exchange_of(frame, expected),
    {
        match frame.into_body() {
            FrameBody::Reply { exchange, reply } => {
                if exchange == expected {
                    self.payload_from_reply(reply)
                } else {
                    Err(
                        Error::UnexpectedRouterReply {
                            got: RouterReplyProblem::ExchangeMismatch { got: exchange, expected },
                        },
                    )
                }
            },
            other => Err(Error::UnexpectedRouterReply { got: RouterReplyProblem::NotAReply { body: other } }),
        }
    }

    fn reply_from_frame_without_exchange_check(&self, frame: Frame) -> (reply: Result<
        MessageReply,
        Error,
    >)
        ensures
            reply == reply_of(frame),
    {
        match frame.into_body() {
            FrameBody::Reply { exchange, reply } => self.payload_from_reply(reply),
            other => Err(Error::UnexpectedRouterReply { got: RouterReplyProblem::NotAReply { body: other } }),
        }
    }

    fn payload_from_reply(&self, reply: SignalReply) -> (payload: Result<MessageReply, Error>)
        ensures
            payload == payload_of(reply),
    {
        match reply {
            SignalReply::Accepted { per_operation } => {
                let mut per_operation = per_operation;
                let count = per_operation.len();
                if count != 1 {
                    return Err(
                        Error::UnexpectedRouterReply {
                            got: RouterReplyProblem::OperationCount { count },
                        },
                    );
                }
                match per_operation.pop().unwrap() {
                    SubReply::Succeeded { verb, payload } => Ok(payload),
                    other => Err(
                        Error::UnexpectedRouterReply {
                            got: RouterReplyProblem::FailedOperation { sub_reply: other },
                        },
                    ),
                }
            },
            SignalReply::Rejected { reason } => Err(
                Error::UnexpectedRouterReply { got: RouterReplyProblem::Rejected { reason } },
            ),
        }
    }
}

impl Default for SignalRouterFrameCodec {
    fn default() -> (codec: Self)
        ensures
            codec == Self::default_spec(),
    {
        SignalRouterFrameCodec::new(DEFAULT_MAXIMUM_FRAME_BYTES)
    }
}

/// A reply frame made for an exchange gives its reply back when it is read
/// for that exchange, and is refused when it is read for any other.
pub proof fn lemma_reply_frame_echoes_exchange(
    frame: Frame,
    exchange: ExchangeIdentifier,
    verb: SignalVerb,
    reply: MessageReply,
    other: ExchangeIdentifier,
)
    requires
        is_reply_frame(frame, exchange, verb, reply),
    ensures
        reply_for_exchange_of(frame, exchange) == Ok::<MessageReply, Error>(reply),
        reply_of(frame) == Ok::<MessageReply, Error>(reply),
        other != exchange ==> reply_for_exchange_of(frame, other) == Err::<MessageReply, Error>(
            Error::UnexpectedRouterReply {
                got: RouterReplyProblem::ExchangeMismatch { got: exchange, expected: other },
            },
        ),
{
}

/// A request frame that carries one operation, and that the Signal layer's
/// checks passed, is read back as its exchange, the operation's verb, and
/// its payload.
pub proof fn lemma_request_frame_round_trip(
    frame: Frame,
    exchange: ExchangeIdentifier,
    request: SignalRequest,
    verb: SignalVerb,
    payload: MessageRequest,
)
    requires
        frame.body == (FrameBody::Request { exchange, request }),
        request.rejection is None,
        request.operations@ == seq![Operation { verb, payload }],
    ensures
        received_request_of(frame) == Ok::<ReceivedMessageRequest, Error>(
            ReceivedMessageRequest { exchange, verb, request: payload },
        ),
{
}

/// Request/reply matching is frame-level: the reply that the daemon frames
/// for a received request, on the exchange that the request carried, is
/// accepted by the client that waits on that exchange and gives back the
/// reply unchanged.
pub proof fn lemma_reply_matches_request_exchange(
    request_frame: Frame,
    received: ReceivedMessageRequest,
    reply_frame: Frame,
    reply: MessageReply,
)
    requires
        received_request_of(request_frame) == Ok::<ReceivedMessageRequest, Error>(received),
        is_reply_frame(reply_frame, received.exchange, received.verb, reply),
    ensures
        request_frame.body matches FrameBody::Request { exchange, .. } && reply_for_exchange_of(
            reply_frame,
            exchange,
        ) == Ok::<MessageReply, Error>(reply),
{
}

/// A component and the socket at which it listens, as the supervisor passes
/// them to peers.
#[derive(Debug)]
pub struct PeerSocket {
    pub component: String,
    pub socket_path: String,
}

/// The peer sockets that the supervisor passed to this component.
#[derive(Debug)]
pub struct PeerSocketEnvironment {
    peers: Vec<PeerSocket>,
}

/// Index of the first peer named "router", if there is one.
pub open spec fn first_router_peer(peers: Seq<PeerSocket>) -> Option<int>
    decreases peers.len(),
{
    if peers.len() == 0 {
        None
    } else if peers[0].component@ == "router"@ {
        Some(0)
    } else {
        match first_router_peer(peers.drop_first()) {
            Some(i) => Some(i + 1),
            None => None,
        }
    }
}

impl PeerSocketEnvironment {
    pub closed spec fn peers(&self) -> Seq<PeerSocket> {
        self.peers@
    }

    pub fn from_peers(peers: Vec<PeerSocket>) -> (environment: Self)
        ensures
            environment.peers() == peers@,
    {
        PeerSocketEnvironment { peers }
    }

    /// How many peers the supervisor announced: the number that the
    /// announcement spells, and none when it is absent or no number.
    pub fn peer_count(announced: Option<&str>) -> (count: usize)
        ensures
            count == match announced {
                Some(text) => match parsed_usize(text@) {
                    Some(number) => number,
                    None => 0,
                },
                None => 0,
            },
    {
        match announced {
            Some(text) => match parse_usize(text) {
                Some(number) => number,
                None => 0,
            },
            None => 0,
        }
    }

    /// The socket of the first peer whose component is the router.
    pub fn router_socket(&self) -> (socket: Option<SignalRouterSocket>)
        ensures
            match first_router_peer(self.peers()) {
                Some(i) => socket is Some && socket->0@ == self.peers()[i].socket_path@,
                None => socket is None,
            },
    {
        proof {
            reveal_strlit("router");
        }
        let router = String::from_str("router");
        let mut index: usize = 0;
        while index < self.peers.len()
            invariant
                index <= self.peers@.len(),
                router@ == "router"@,
                forall|j: int| 0 <= j < index ==> self.peers@[j].component@ != "router"@,
            decreases self.peers@.len() - index,
        {
            if self.peers[index].component == router {
                proof {
                    lemma_first_router_peer(self.peers@, index as int);
                }
                return Some(SignalRouterSocket::from_path(self.peers[index].socket_path.clone()));
            }
            index = index + 1;
        }
        proof {
            lemma_no_router_peer(self.peers@);
        }
        None
    }
}

proof fn lemma_first_router_peer(peers: Seq<PeerSocket>, i: int)
    requires
        0 <= i < peers.len(),
        peers[i].component@ == "router"@,
        forall|j: int| 0 <= j < i ==> peers[j].component@ != "router"@,
    ensures
        first_router_peer(peers) == Some(i),
    decreases i,
{
    if i > 0 {
        lemma_first_router_peer(peers.drop_first(), i - 1);
    }
}

proof fn lemma_no_router_peer(peers: Seq<PeerSocket>)
    requires
        forall|j: int| 0 <= j < peers.len() ==> peers[j].component@ != "router"@,
    ensures
        first_router_peer(peers) is None,
    decreases peers.len(),
{
    if peers.len() > 0 {
        lemma_no_router_peer(peers.drop_first());
    }
}

} // verus!
