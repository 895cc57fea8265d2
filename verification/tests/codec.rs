use persona_message::error::{DaemonInputProblem, Error, RouterReplyProblem};
use persona_message::router::{
    PeerSocket, PeerSocketEnvironment, SignalRouterFrameCodec, SignalRouterSocket,
    DEFAULT_MAXIMUM_FRAME_BYTES,
};
use persona_message::signal::{
    ExchangeIdentifier, ExchangeLane, Frame, FrameBody, InboxQuery, MessageRecipient, MessageReply,
    MessageRequest, MessageSlot, Operation, SignalReply, SignalRequest, SignalVerb, SubReply,
    SubmissionAcceptance,
};

fn exchange(sequence: u64) -> ExchangeIdentifier {
    ExchangeIdentifier {
        session_epoch: 0,
        lane: ExchangeLane::Connector,
        sequence,
    }
}

fn verb(name: &str) -> SignalVerb {
    SignalVerb {
        name: name.to_string(),
    }
}

fn accepted(slot: u64) -> MessageReply {
    MessageReply::SubmissionAccepted(SubmissionAcceptance {
        message_slot: MessageSlot { slot },
    })
}

fn inbox_query(recipient: &str) -> MessageRequest {
    MessageRequest::InboxQuery(InboxQuery {
        recipient: MessageRecipient {
            text: recipient.to_string(),
        },
    })
}

#[test]
fn default_codec_accepts_one_mebibyte() {
    assert_eq!(
        SignalRouterFrameCodec::default().maximum_frame_bytes,
        1024 * 1024
    );
    assert_eq!(DEFAULT_MAXIMUM_FRAME_BYTES, 1_048_576);
}

#[test]
fn frame_length_prefix_is_big_endian() {
    let codec = SignalRouterFrameCodec::default();
    assert_eq!(codec.frame_body_length([0, 0, 1, 2]).expect("small frame"), 258);
    assert_eq!(codec.frame_body_length([0, 0x10, 0, 0]).expect("largest frame"), 1_048_576);
}

#[test]
fn frame_length_over_the_limit_is_refused() {
    let codec = SignalRouterFrameCodec::new(16);
    match codec.frame_body_length([0, 0, 0, 17]) {
        Err(Error::DaemonFrameTooLarge { bytes }) => assert_eq!(bytes, 17),
        other => panic!("expected a too-large frame, got {other:?}"),
    }
    assert_eq!(codec.frame_body_length([0, 0, 0, 16]).expect("at the limit"), 16);
    assert!(matches!(
        codec.frame_body_length([0xff, 0xff, 0xff, 0xff]),
        Err(Error::DaemonFrameTooLarge { bytes: 4_294_967_295 })
    ));
}

#[test]
fn frame_buffer_holds_prefix_then_room_for_the_body() {
    let codec = SignalRouterFrameCodec::default();
    let buffer = codec.frame_buffer([0, 0, 0, 3], 3);
    assert_eq!(buffer, vec![0, 0, 0, 3, 0, 0, 0]);
}

#[test]
fn reply_frame_is_read_back_on_its_exchange() {
    let codec = SignalRouterFrameCodec::default();
    let frame = codec.reply_frame(exchange(4), verb("Assert"), accepted(9));
    let reply = codec
        .reply_from_frame_for_exchange(frame, exchange(4))
        .expect("matching exchange");
    assert!(matches!(
        reply,
        MessageReply::SubmissionAccepted(SubmissionAcceptance {
            message_slot: MessageSlot { slot: 9 }
        })
    ));
}

#[test]
fn reply_frame_on_another_exchange_is_refused() {
    let codec = SignalRouterFrameCodec::default();
    let frame = codec.reply_frame(exchange(4), verb("Assert"), accepted(9));
    match codec.reply_from_frame_for_exchange(frame, exchange(5)) {
        Err(Error::UnexpectedRouterReply {
            got: RouterReplyProblem::ExchangeMismatch { got, expected },
        }) => {
            assert_eq!(got, exchange(4));
            assert_eq!(expected, exchange(5));
        }
        other => panic!("expected an exchange mismatch, got {other:?}"),
    }
}

#[test]
fn reply_from_frame_ignores_the_exchange() {
    let codec = SignalRouterFrameCodec::default();
    let frame = codec.reply_frame(exchange(4), verb("Assert"), accepted(9));
    assert!(matches!(
        codec.reply_from_frame(frame),
        Ok(MessageReply::SubmissionAccepted(_))
    ));
}

#[test]
fn request_frame_is_not_a_reply() {
    let codec = SignalRouterFrameCodec::default();
    let frame = Frame::new(FrameBody::Request {
        exchange: exchange(1),
        request: SignalRequest {
            operations: vec![],
            rejection: None,
        },
    });
    assert!(matches!(
        codec.reply_from_frame(frame),
        Err(Error::UnexpectedRouterReply {
            got: RouterReplyProblem::NotAReply { .. }
        })
    ));
}

#[test]
fn rejected_and_failed_replies_are_refused() {
    let codec = SignalRouterFrameCodec::default();
    let rejected = Frame::new(FrameBody::Reply {
        exchange: exchange(1),
        reply: SignalReply::Rejected {
            reason: "busy".to_string(),
        },
    });
    match codec.reply_from_frame_for_exchange(rejected, exchange(1)) {
        Err(Error::UnexpectedRouterReply {
            got: RouterReplyProblem::Rejected { reason },
        }) => assert_eq!(reason, "busy"),
        other => panic!("expected a rejected reply, got {other:?}"),
    }

    let failed = Frame::new(FrameBody::Reply {
        exchange: exchange(1),
        reply: SignalReply::Accepted {
            per_operation: vec![SubReply::Other {
                description: "failed".to_string(),
            }],
        },
    });
    assert!(matches!(
        codec.reply_from_frame_for_exchange(failed, exchange(1)),
        Err(Error::UnexpectedRouterReply {
            got: RouterReplyProblem::FailedOperation { .. }
        })
    ));

    let two = Frame::new(FrameBody::Reply {
        exchange: exchange(1),
        reply: SignalReply::Accepted {
            per_operation: vec![
                SubReply::Succeeded {
                    verb: verb("Assert"),
                    payload: accepted(1),
                },
                SubReply::Succeeded {
                    verb: verb("Assert"),
                    payload: accepted(2),
                },
            ],
        },
    });
    assert!(matches!(
        codec.reply_from_frame_for_exchange(two, exchange(1)),
        Err(Error::UnexpectedRouterReply {
            got: RouterReplyProblem::OperationCount { count: 2 }
        })
    ));
}

#[test]
fn request_frame_yields_its_one_operation() {
    let codec = SignalRouterFrameCodec::default();
    let frame = Frame::new(FrameBody::Request {
        exchange: exchange(3),
        request: SignalRequest {
            operations: vec![Operation {
                verb: verb("Match"),
                payload: inbox_query("designer"),
            }],
            rejection: None,
        },
    });
    let received = codec.request_from_frame(frame).expect("one operation");
    assert_eq!(received.exchange, exchange(3));
    assert_eq!(received.verb.name, "Match");
    let MessageRequest::InboxQuery(query) = received.request else {
        panic!("expected the inbox query");
    };
    assert_eq!(query.recipient.text, "designer");
}

#[test]
fn request_with_several_operations_is_refused() {
    let codec = SignalRouterFrameCodec::default();
    let frame = Frame::new(FrameBody::Request {
        exchange: exchange(3),
        request: SignalRequest {
            operations: vec![
                Operation {
                    verb: verb("Match"),
                    payload: inbox_query("designer"),
                },
                Operation {
                    verb: verb("Match"),
                    payload: inbox_query("operator"),
                },
            ],
            rejection: None,
        },
    });
    assert!(matches!(
        codec.request_from_frame(frame),
        Err(Error::UnexpectedDaemonInput {
            got: DaemonInputProblem::OperationCount { count: 2 }
        })
    ));
}

#[test]
fn reply_frame_sent_to_the_daemon_is_refused() {
    let codec = SignalRouterFrameCodec::default();
    let frame = codec.reply_frame(exchange(1), verb("Assert"), accepted(1));
    assert!(matches!(
        codec.request_from_frame(frame),
        Err(Error::UnexpectedDaemonInput {
            got: DaemonInputProblem::NotARequest { .. }
        })
    ));
}

fn peer(component: &str, path: &str) -> PeerSocket {
    PeerSocket {
        component: component.to_string(),
        socket_path: path.to_string(),
    }
}

#[test]
fn router_socket_is_the_first_router_peer() {
    let environment = PeerSocketEnvironment::from_peers(vec![
        peer("terminal", "/run/terminal.sock"),
        peer("router", "/run/router.sock"),
        peer("router", "/run/other-router.sock"),
    ]);
    let socket = environment.router_socket().expect("a router peer");
    assert_eq!(socket.path(), "/run/router.sock");

    let none = PeerSocketEnvironment::from_peers(vec![peer("terminal", "/run/terminal.sock")]);
    assert!(none.router_socket().is_none());
}

#[test]
fn peer_count_reads_a_decimal_announcement() {
    assert_eq!(PeerSocketEnvironment::peer_count(Some("3")), 3);
    assert_eq!(PeerSocketEnvironment::peer_count(Some("+2")), 2);
    assert_eq!(PeerSocketEnvironment::peer_count(Some("two")), 0);
    assert_eq!(PeerSocketEnvironment::peer_count(Some("")), 0);
    assert_eq!(PeerSocketEnvironment::peer_count(None), 0);
}

#[test]
fn router_socket_from_peer_environment() {
    let environment = PeerSocketEnvironment::from_peers(vec![peer("router", "/run/router.sock")]);
    let socket = SignalRouterSocket::from_peer_environment(&environment).expect("a router peer");
    assert_eq!(socket.path(), "/run/router.sock");
}
