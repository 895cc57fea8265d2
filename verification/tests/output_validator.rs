use persona_message::command::{
    CommandLineArgument, Output, RouterInboxEntry, RouterInboxListing, SubmissionAccepted,
};
use persona_message::error::{Error, OutputProblem, ValidatorArgumentProblem};
use persona_message::output_validator::{
    OutputExpectation, OutputValidation, OutputValidatorCommandLine,
};
use persona_message::schema::ActorId;

fn arguments(texts: &[&str]) -> Vec<CommandLineArgument> {
    texts
        .iter()
        .map(|text| CommandLineArgument::new(text.to_string(), true, format!("{text:?}")))
        .collect()
}

fn listing(entries: &[(&str, &str)]) -> Output {
    Output::RouterInboxListing(RouterInboxListing {
        messages: entries
            .iter()
            .enumerate()
            .map(|(index, (sender, body))| RouterInboxEntry {
                message_slot: index as u64,
                sender: ActorId::new(sender.to_string()),
                body: body.to_string(),
            })
            .collect(),
    })
}

fn accepted() -> Output {
    Output::SubmissionAccepted(SubmissionAccepted { message_slot: 7 })
}

#[test]
fn submission_accepted_expectation_is_read() {
    let validation = OutputValidation::from_arguments(&arguments(&[
        "--file",
        "reply.nota",
        "expect-submission-accepted",
    ]))
    .expect("valid arguments");
    assert_eq!(validation.output_path, "reply.nota");
    assert!(matches!(validation.expectation, OutputExpectation::SubmissionAccepted));
    assert!(validation.check(&accepted()).is_ok());
    match validation.check(&listing(&[("operator", "hello")])) {
        Err(Error::OutputValidation {
            detail: OutputProblem::ExpectedSubmissionAccepted { got },
        }) => {
            let Output::RouterInboxListing(shown) = got else {
                panic!("expected the listing to be reported");
            };
            assert_eq!(shown.messages.len(), 1);
            assert_eq!(shown.messages[0].body, "hello");
        }
        other => panic!("expected a submission-accepted problem, got {other:?}"),
    }
}

#[test]
fn inbox_entry_expectation_with_sender_is_read_and_checked() {
    let command = OutputValidatorCommandLine::from_arguments(arguments(&[
        "--file",
        "inbox.nota",
        "expect-inbox-entry",
        "--sender",
        "operator",
        "--body",
        "router-only",
    ]));
    let validation = command.validation().expect("valid arguments");
    match &validation.expectation {
        OutputExpectation::InboxEntryPresent { sender, body } => {
            assert_eq!(sender.as_ref().expect("a sender").as_str(), "operator");
            assert_eq!(body, "router-only");
        }
        other => panic!("expected an inbox entry expectation, got {other:?}"),
    }
    assert!(validation.check(&listing(&[("operator", "router-only")])).is_ok());
    match validation.check(&listing(&[("designer", "router-only")])) {
        Err(Error::OutputValidation {
            detail: OutputProblem::MissingInboxEntry { sender, body, output },
        }) => {
            assert_eq!(sender.as_deref(), Some("operator"));
            assert_eq!(body, "router-only");
            let Output::RouterInboxListing(shown) = output else {
                panic!("expected the listing to be reported");
            };
            assert_eq!(shown.messages[0].sender.as_str(), "designer");
        }
        other => panic!("expected a missing entry, got {other:?}"),
    }
    assert!(matches!(
        validation.check(&accepted()),
        Err(Error::OutputValidation {
            detail: OutputProblem::ExpectedRouterInboxListing {
                got: Output::SubmissionAccepted(SubmissionAccepted { message_slot: 7 })
            }
        })
    ));
}

#[test]
fn inbox_entry_expectation_without_sender_matches_any_sender() {
    let validation = OutputValidation::from_arguments(&arguments(&[
        "--file",
        "inbox.nota",
        "expect-inbox-entry",
        "--body",
        "hello",
    ]))
    .expect("valid arguments");
    assert!(validation.check(&listing(&[("designer", "hello")])).is_ok());
}

#[test]
fn inbox_body_absent_expectation_is_checked() {
    let validation = OutputValidation::from_arguments(&arguments(&[
        "--file",
        "inbox.nota",
        "expect-inbox-body-absent",
        "--body",
        "stale-local",
    ]))
    .expect("valid arguments");
    assert!(validation.check(&listing(&[("operator", "router-only")])).is_ok());
    match validation.check(&listing(&[("operator", "stale-local")])) {
        Err(Error::OutputValidation {
            detail: OutputProblem::UnexpectedInboxBody { body, output },
        }) => {
            assert_eq!(body, "stale-local");
            assert!(matches!(output, Output::RouterInboxListing(_)));
        }
        other => panic!("expected an unexpected body, got {other:?}"),
    }
}

#[test]
fn missing_value_is_refused() {
    match OutputValidation::from_arguments(&arguments(&["--file"])) {
        Err(Error::InvalidValidatorArgument {
            detail: ValidatorArgumentProblem::MissingValue { name },
        }) => assert_eq!(name, "--file"),
        other => panic!("expected a missing value, got {other:?}"),
    }
}

#[test]
fn wrong_option_is_refused() {
    match OutputValidation::from_arguments(&arguments(&["--path", "x", "expect-submission-accepted"])) {
        Err(Error::InvalidValidatorArgument {
            detail: ValidatorArgumentProblem::ExpectedOption { name, got },
        }) => {
            assert_eq!(name, "--file");
            assert_eq!(got, "--path");
        }
        other => panic!("expected another option, got {other:?}"),
    }
}

#[test]
fn unknown_expectation_is_refused() {
    match OutputValidation::from_arguments(&arguments(&["--file", "x", "expect-nothing"])) {
        Err(Error::InvalidValidatorArgument {
            detail: ValidatorArgumentProblem::UnknownExpectation { got },
        }) => assert_eq!(got, "expect-nothing"),
        other => panic!("expected an unknown expectation, got {other:?}"),
    }
}

#[test]
fn argument_left_over_is_refused() {
    match OutputValidation::from_arguments(&arguments(&[
        "--file",
        "x",
        "expect-submission-accepted",
        "extra",
    ])) {
        Err(Error::UnexpectedArgument { got }) => assert_eq!(got, "extra"),
        other => panic!("expected an unexpected argument, got {other:?}"),
    }
}

#[test]
fn word_that_is_not_unicode_is_refused() {
    let mut given = arguments(&["--file", "x"]);
    given.push(CommandLineArgument::new(
        "expect-\u{fffd}".to_string(),
        false,
        "\"expect-\\xFF\"".to_string(),
    ));
    match OutputValidation::from_arguments(&given) {
        Err(Error::InvalidValidatorArgument {
            detail: ValidatorArgumentProblem::NotUnicode { name, got },
        }) => {
            assert_eq!(name, "expectation");
            assert_eq!(got, "\"expect-\\xFF\"");
        }
        other => panic!("expected a non-unicode word, got {other:?}"),
    }
}

#[test]
fn file_path_need_not_be_unicode() {
    let given = vec![
        CommandLineArgument::new("--file".to_string(), true, "\"--file\"".to_string()),
        CommandLineArgument::new(
            "reply-\u{fffd}.nota".to_string(),
            false,
            "\"reply-\\xFF.nota\"".to_string(),
        ),
        CommandLineArgument::new(
            "expect-submission-accepted".to_string(),
            true,
            "\"expect-submission-accepted\"".to_string(),
        ),
    ];
    let validation = OutputValidation::from_arguments(&given).expect("valid arguments");
    assert_eq!(validation.output_path, "reply-\u{fffd}.nota");
}
