use persona_message::daemon::{
    saturating_nanos, ForwardDecision, MessageDaemon, MessageDaemonInput, MessageDaemonRoot,
    MessageDaemonRootInput, MessageOriginStamper, PeerCredentials, SocketMode,
};
use persona_message::router::{SignalMessageSocket, SignalRouterSocket};
use persona_message::signal::{
    ConnectionClass, InboxQuery, MessageBody, MessageDaemonConfiguration, MessageKind,
    MessageOperationKind, MessageOrigin, MessageRecipient, MessageReply, MessageRequest,
    MessageSubmission, MessageUnimplementedReason, OwnerIdentity, SpawnEnvelope,
    StampedMessageSubmission, TimestampNanos, UnixUserId,
};

fn owner(id: u32) -> OwnerIdentity {
    OwnerIdentity::UnixUser(UnixUserId { id })
}

fn submission(recipient: &str, body: &str) -> MessageSubmission {
    MessageSubmission {
        recipient: MessageRecipient {
            text: recipient.to_string(),
        },
        kind: MessageKind::Send,
        body: MessageBody {
            text: body.to_string(),
        },
    }
}

fn peer(id: u32) -> PeerCredentials {
    PeerCredentials::from_user_id(UnixUserId { id })
}

#[test]
fn socket_mode_keeps_its_octal_bits() {
    assert_eq!(SocketMode::from_octal(0o660).as_octal(), 0o660);
}

#[test]
fn owner_peer_is_stamped_as_owner() {
    let stamper = MessageOriginStamper::from_owner_identity(owner(1000));
    assert_eq!(
        stamper.origin_for_peer(peer(1000)),
        MessageOrigin::External(ConnectionClass::Owner)
    );
    assert_eq!(
        stamper.origin_for_peer(peer(1001)),
        MessageOrigin::External(ConnectionClass::NonOwnerUser(UnixUserId { id: 1001 }))
    );
}

#[test]
fn submission_is_forwarded_stamped_with_its_content_unchanged() {
    let stamper = MessageOriginStamper::from_spawn_envelope(SpawnEnvelope {
        owner_identity: owner(1000),
    });
    let decision = stamper.stamp_request_at(
        MessageRequest::MessageSubmission(submission("designer", "hello")),
        peer(1000),
        TimestampNanos { nanos: 42 },
    );
    let ForwardDecision::Forward(MessageRequest::StampedMessageSubmission(stamped)) = decision
    else {
        panic!("expected a stamped forward");
    };
    assert_eq!(stamped.submission.recipient.text, "designer");
    assert_eq!(stamped.submission.body.text, "hello");
    assert_eq!(stamped.origin, MessageOrigin::External(ConnectionClass::Owner));
    assert_eq!(stamped.stamped_at, TimestampNanos { nanos: 42 });
}

#[test]
fn submission_is_stamped_with_the_clock() {
    let stamper = MessageOriginStamper::from_owner_identity(owner(1000));
    let decision = stamper
        .stamp_request(
            MessageRequest::MessageSubmission(submission("designer", "now")),
            peer(1000),
        )
        .expect("the clock reads after the epoch");
    let ForwardDecision::Forward(MessageRequest::StampedMessageSubmission(stamped)) = decision
    else {
        panic!("expected a stamped forward");
    };
    assert!(stamped.stamped_at.nanos > 0);
}

#[test]
fn client_stamped_submission_is_answered_not_forwarded() {
    let stamper = MessageOriginStamper::from_owner_identity(owner(1000));
    let request = MessageRequest::StampedMessageSubmission(StampedMessageSubmission {
        submission: submission("designer", "forged"),
        origin: MessageOrigin::External(ConnectionClass::Owner),
        stamped_at: TimestampNanos { nanos: 1 },
    });
    let decision = stamper.stamp_request(request, peer(1001)).expect("no clock needed");
    let ForwardDecision::Reply(MessageReply::MessageRequestUnimplemented(reply)) = decision else {
        panic!("expected an unimplemented reply");
    };
    assert_eq!(reply.operation, MessageOperationKind::StampedMessageSubmission);
    assert_eq!(reply.reason, MessageUnimplementedReason::NotInPrototypeScope);
}

#[test]
fn inbox_query_is_forwarded_unchanged() {
    let stamper = MessageOriginStamper::from_owner_identity(owner(1000));
    let request = MessageRequest::InboxQuery(InboxQuery {
        recipient: MessageRecipient {
            text: "designer".to_string(),
        },
    });
    let decision = stamper.stamp_request(request, peer(1001)).expect("no clock needed");
    let ForwardDecision::Forward(MessageRequest::InboxQuery(query)) = decision else {
        panic!("expected the query forwarded");
    };
    assert_eq!(query.recipient.text, "designer");
}

#[test]
fn root_counts_forwarded_requests() {
    let mut root = MessageDaemonRoot::new(MessageDaemonRootInput {
        router_socket: SignalRouterSocket::from_path("/run/router.sock".to_string()),
        owner_identity: owner(1000),
    });
    assert_eq!(root.forwarded_count(), 0);
    assert_eq!(root.router().socket_path(), "/run/router.sock");
    root.record_forwarded();
    root.record_forwarded();
    assert_eq!(root.forwarded_count(), 2);
}

#[test]
fn nanoseconds_saturate_at_the_largest_u64() {
    assert_eq!(saturating_nanos(5), 5);
    assert_eq!(saturating_nanos(u128::from(u64::MAX)), u64::MAX);
    assert_eq!(saturating_nanos(u128::from(u64::MAX) + 1), u64::MAX);
}

#[test]
fn daemon_takes_its_settings_from_the_configuration() {
    let daemon = MessageDaemon::from_configuration(MessageDaemonConfiguration {
        message_socket_path: "/run/message.sock".to_string(),
        message_socket_mode: 0o660,
        supervision_socket_path: "/run/message.supervision.sock".to_string(),
        supervision_socket_mode: 0o600,
        router_socket_path: "/run/router.sock".to_string(),
        owner_identity: owner(1000),
    });
    assert_eq!(daemon.message_socket().path(), "/run/message.sock");
    assert_eq!(daemon.message_socket_mode().as_octal(), 0o660);
    assert_eq!(daemon.supervision_socket_path(), "/run/message.supervision.sock");
    assert_eq!(daemon.supervision_socket_mode().as_octal(), 0o600);
    let root_input = daemon.root_input();
    assert_eq!(root_input.router_socket.path(), "/run/router.sock");
    assert_eq!(root_input.owner_identity, owner(1000));
}

#[test]
fn daemon_takes_explicit_input() {
    let daemon = MessageDaemon::from_input(MessageDaemonInput {
        message_socket: SignalMessageSocket::from_path("/tmp/message.sock".to_string()),
        message_socket_mode: SocketMode::from_octal(0o660),
        router_socket: SignalRouterSocket::from_path("/tmp/router.sock".to_string()),
        supervision_socket_path: "/tmp/supervision.sock".to_string(),
        supervision_socket_mode: SocketMode::from_octal(0o600),
        owner_identity: owner(7000),
    });
    assert_eq!(daemon.message_socket().path(), "/tmp/message.sock");
    assert_eq!(daemon.root_input().owner_identity, owner(7000));
}
