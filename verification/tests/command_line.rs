use persona_message::command::{
    CommandLine, CommandLineArgument, Input, InputKind, InputSource, Output, RouterInboxEntry,
    SubmissionRejected, SubmissionRejectionReason,
};
use persona_message::error::{Error, RouterReplyProblem};
use persona_message::signal::{
    InboxEntry, InboxListing, MessageBody, MessageOperationKind, MessageReply,
    MessageRequestUnimplemented, MessageSender, MessageSlot, MessageUnimplementedReason,
    SubmissionRejection, SubmissionRejectionReason as SignalReason,
};

fn argument(text: &str) -> CommandLineArgument {
    CommandLineArgument::new(text.to_string(), true, format!("{text:?}"))
}

#[test]
fn missing_input_is_refused() {
    let command = CommandLine::from_arguments(vec![]);
    assert!(matches!(command.input_source(), Err(Error::MissingInput)));
}

#[test]
fn inline_record_is_taken_as_text() {
    let command = CommandLine::from_arguments(vec![argument("(Send designer hello)")]);
    match command.input_source() {
        Ok(InputSource::InlineRecord(text)) => assert_eq!(text, "(Send designer hello)"),
        other => panic!("expected an inline record, got {other:?}"),
    }
}

#[test]
fn other_argument_is_a_file_path() {
    let command = CommandLine::from_arguments(vec![argument("input.nota")]);
    match command.input_source() {
        Ok(InputSource::InputFile(file)) => assert_eq!(file.path(), "input.nota"),
        other => panic!("expected an input file, got {other:?}"),
    }
}

#[test]
fn inline_record_that_is_not_unicode_is_refused() {
    let command = CommandLine::from_arguments(vec![CommandLineArgument::new(
        "(Send designer \u{fffd})".to_string(),
        false,
        "\"(Send designer \\xFF)\"".to_string(),
    )]);
    match command.input_source() {
        Err(Error::InvalidInlineNotaArgument { got }) => {
            assert_eq!(got, "\"(Send designer \\xFF)\"")
        }
        other => panic!("expected an invalid inline argument, got {other:?}"),
    }
    let path = CommandLine::from_arguments(vec![CommandLineArgument::new(
        "input-\u{fffd}.nota".to_string(),
        false,
        "\"input-\\xFF.nota\"".to_string(),
    )]);
    assert!(matches!(path.input_source(), Ok(InputSource::InputFile(_))));
}

#[test]
fn input_rejects_unknown_record_heads() {
    assert_eq!(Input::kind_for_head("Send").expect("send"), InputKind::Send);
    assert_eq!(Input::kind_for_head("Inbox").expect("inbox"), InputKind::Inbox);
    match Input::kind_for_head("Bead") {
        Err(Error::UnknownKindForVerb { verb, got }) => {
            assert_eq!(verb, "Input");
            assert_eq!(got, "Bead");
        }
        other => panic!("expected unknown input kind, got {other:?}"),
    }
}

#[test]
fn rejection_reasons_are_written_by_name() {
    assert_eq!(SubmissionRejectionReason::StoreRejected.name(), "StoreRejected");
    assert_eq!(
        SubmissionRejectionReason::from_name("RecipientNotFound").expect("known reason"),
        SubmissionRejectionReason::RecipientNotFound
    );
    assert!(matches!(
        SubmissionRejectionReason::from_name("Lost"),
        Err(Error::UnknownKindForVerb { .. })
    ));
}

#[test]
fn router_rejection_is_shown_with_its_reason() {
    let output = Output::from_router_reply(MessageReply::SubmissionRejected(SubmissionRejection {
        reason: SignalReason::RecipientNotFound,
    }))
    .expect("rejection projects");
    assert!(matches!(
        output,
        Output::SubmissionRejected(SubmissionRejected {
            reason: SubmissionRejectionReason::RecipientNotFound
        })
    ));
}

#[test]
fn router_inbox_listing_is_shown_entry_by_entry() {
    let listing = InboxListing {
        messages: vec![
            InboxEntry {
                message_slot: MessageSlot { slot: 3 },
                sender: MessageSender {
                    text: "operator".to_string(),
                },
                body: MessageBody {
                    text: "router-only".to_string(),
                },
            },
            InboxEntry {
                message_slot: MessageSlot { slot: 4 },
                sender: MessageSender {
                    text: "designer".to_string(),
                },
                body: MessageBody {
                    text: "second".to_string(),
                },
            },
        ],
    };
    let Output::RouterInboxListing(shown) =
        Output::from_router_reply(MessageReply::InboxListing(listing)).expect("listing projects")
    else {
        panic!("expected an inbox listing");
    };
    let entries: Vec<(u64, String, String)> = shown
        .messages
        .iter()
        .map(|entry: &RouterInboxEntry| {
            (
                entry.message_slot,
                entry.sender.as_str().to_string(),
                entry.body.clone(),
            )
        })
        .collect();
    assert_eq!(
        entries,
        vec![
            (3, "operator".to_string(), "router-only".to_string()),
            (4, "designer".to_string(), "second".to_string()),
        ]
    );
}

#[test]
fn unimplemented_router_reply_has_no_output_record() {
    let reply = MessageReply::MessageRequestUnimplemented(MessageRequestUnimplemented {
        operation: MessageOperationKind::StampedMessageSubmission,
        reason: MessageUnimplementedReason::NotInPrototypeScope,
    });
    assert!(matches!(
        Output::from_router_reply(reply),
        Err(Error::UnexpectedRouterReply {
            got: RouterReplyProblem::Unimplemented { .. }
        })
    ));
}
