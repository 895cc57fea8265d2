use vstd::prelude::*;

use crate::error::{Error, RouterReplyProblem};
use crate::router::{SignalMessageClient, SignalMessageSocket, SignalRouterFrameCodec};
use crate::schema::ActorId;
use crate::text::same_text;
use crate::signal::{
    InboxEntry, InboxQuery as SignalInboxQuery, MessageBody as SignalMessageBody, MessageKind,
    MessageRecipient as SignalMessageRecipient, MessageReply, MessageRequest, MessageSubmission,
    SubmissionRejectionReason as SignalSubmissionRejectionReason,
};

verus! {

/// The `Send` input record: a body for a recipient.
#[derive(Debug)]
pub struct Send {
    pub recipient: ActorId,
    pub body: String,
}

/// The `Inbox` input record: the recipient whose messages are wanted.
#[derive(Debug)]
pub struct Inbox {
    pub recipient: ActorId,
}

/// One input record of the `message` command.
#[derive(Debug)]
pub enum Input {
    Send(Send),
    Inbox(Inbox),
}

/// Whether `request` is the message request that `input` projects to.
pub open spec fn is_request_for(input: Input, request: MessageRequest) -> bool {
    match input {
        Input::Send(send) => match request {
            MessageRequest::MessageSubmission(submission) => {
                &&& submission.recipient.text@ == send.recipient@
                &&& submission.kind == MessageKind::Send
                &&& submission.body.text@ == send.body@
            },
            _ => false,
        },
        Input::Inbox(inbox) => match request {
            MessageRequest::InboxQuery(query) => query.recipient.text@ == inbox.recipient@,
            _ => false,
        },
    }
}

/// A `Send` record goes out as a submission that carries its recipient and
/// its whole body unchanged; an `Inbox` record goes out as a query for its
/// recipient; nothing else is a request for either.
pub proof fn lemma_request_carries_the_record(input: Input, request: MessageRequest)
    requires
        is_request_for(input, request),
    ensures
        input matches Input::Send(send) ==> (request matches MessageRequest::MessageSubmission(
            submission,
        ) && submission.body.text@ == send.body@ && submission.body.text@.len() == send.body@.len()
            && submission.recipient.text@ == send.recipient@ && submission.kind == MessageKind::Send),
        input matches Input::Inbox(inbox) ==> (request matches MessageRequest::InboxQuery(query)
            && query.recipient.text@ == inbox.recipient@),
{
}

/// The request to send, and the client of the daemon socket to send it by.
#[derive(Debug)]
pub struct MessageExchange {
    pub client: SignalMessageClient,
    pub request: MessageRequest,
}

/// Which input record a record head names.
#[derive(Debug, Clone, Copy, PartialEq, Eq, Structural)]
pub enum InputKind {
    Send,
    Inbox,
}

impl Input {
    /// The input kind that a record head names; any head but `Send` and
    /// `Inbox` is refused.
    pub fn kind_for_head(head: &str) -> (kind: Result<InputKind, Error>)
        ensures
            head@ == "Send"@ ==> kind == Ok::<InputKind, Error>(InputKind::Send),
            head@ == "Inbox"@ ==> kind == Ok::<InputKind, Error>(InputKind::Inbox),
            head@ != "Send"@ && head@ != "Inbox"@ ==> (kind matches Err(
                Error::UnknownKindForVerb { verb, got },
            ) && verb@ == "Input"@ && got@ == head@),
    {
        proof {
            reveal_strlit("Send");
            reveal_strlit("Inbox");
            assert("Send"@.len() != "Inbox"@.len());
        }
        if same_text(head, "Send") {
            Ok(InputKind::Send)
        } else if same_text(head, "Inbox") {
            Ok(InputKind::Inbox)
        } else {
            Err(Error::UnknownKindForVerb { verb: String::from_str("Input"), got: String::from_str(head) })
        }
    }

    /// The message request that this input projects to.
    pub fn into_message_request(self) -> (request: MessageRequest)
        ensures
            is_request_for(self, request),
    {
        match self {
            Input::Send(send) => send.into_message_request(),
            Input::Inbox(inbox) => inbox.into_message_request(),
        }
    }

    /// Decides how this input is carried out: as one request on the message
    /// daemon's socket, which must be configured.
    pub fn run(self, socket: Option<SignalMessageSocket>) -> (exchange: Result<MessageExchange, Error>)
        ensures
            socket is None ==> exchange == Err::<MessageExchange, Error>(
                Error::SignalMessageSocketMissing,
            ),
            socket is Some ==> exchange is Ok,
            exchange matches Ok(planned) ==> {
                &&& planned.client.socket()@ == socket->0@
                &&& planned.client.codec() == SignalRouterFrameCodec::default_spec()
                &&& is_request_for(self, planned.request)
            },
    {
        match socket {
            None => Err(Error::SignalMessageSocketMissing),
            Some(socket) => {
                let client = SignalMessageClient::from_socket(socket);
                Ok(MessageExchange { client, request: self.into_message_request() })
            },
        }
    }
}

impl Send {
    /// The submission that carries this record: recipient and body, and no
    /// sender, which the daemon stamps.
    pub fn into_message_request(self) -> (request: MessageRequest)
        ensures
            is_request_for(Input::Send(self), request),
            request matches MessageRequest::MessageSubmission(submission) && submission.body.text@
                == self.body@ && submission.recipient.text@ == self.recipient@ && submission.kind
                == MessageKind::Send,
    {
        MessageRequest::MessageSubmission(
            MessageSubmission {
                recipient: SignalMessageRecipient { text: self.recipient.into_text() },
                kind: MessageKind::Send,
                body: SignalMessageBody { text: self.body },
            },
        )
    }
}

impl Inbox {
    /// The inbox query for this record's recipient.
    pub fn into_message_request(self) -> (request: MessageRequest)
        ensures
            is_request_for(Input::Inbox(self), request),
            request matches MessageRequest::InboxQuery(query) && query.recipient.text@
                == self.recipient@,
    {
        MessageRequest::InboxQuery(
            SignalInboxQuery { recipient: SignalMessageRecipient { text: self.recipient.into_text() } },
        )
    }
}

/// The router accepted the submission into this slot.
#[derive(Debug, Clone, Copy, PartialEq, Eq, Structural)]
pub struct SubmissionAccepted {
    pub message_slot: u64,
}

/// The router refused the submission.
#[derive(Debug, Clone, Copy, PartialEq, Eq, Structural)]
pub struct SubmissionRejected {
    pub reason: SubmissionRejectionReason,
}

/// Why the router refused a submission, as the command prints it.
#[derive(Debug, Clone, Copy, PartialEq, Eq, Structural)]
pub enum SubmissionRejectionReason {
    StoreRejected,
    RecipientNotFound,
}

/// The messages that the router holds for a recipient.
#[derive(Debug)]
pub struct RouterInboxListing {
    pub messages: Vec<RouterInboxEntry>,
}

/// One message of a router inbox listing.
#[derive(Debug)]
pub struct RouterInboxEntry {
    pub message_slot: u64,
    pub sender: ActorId,
    pub body: String,
}

/// The one record that the `message` command prints.
#[derive(Debug)]
pub enum Output {
    SubmissionAccepted(SubmissionAccepted),
    SubmissionRejected(SubmissionRejected),
    RouterInboxListing(RouterInboxListing),
}

/// An output record in terms of numbers and texts.
pub enum OutputView {
    SubmissionAccepted(u64),
    SubmissionRejected(SubmissionRejectionReason),
    RouterInboxListing(Seq<(u64, Seq<char>, Seq<char>)>),
}

/// An inbox entry in terms of its slot, sender text and body text.
pub open spec fn entry_view(entry: RouterInboxEntry) -> (u64, Seq<char>, Seq<char>) {
    (entry.message_slot, entry.sender@, entry.body@)
}

pub open spec fn output_view(output: Output) -> OutputView {
    match output {
        Output::SubmissionAccepted(accepted) => OutputView::SubmissionAccepted(accepted.message_slot),
        Output::SubmissionRejected(rejected) => OutputView::SubmissionRejected(rejected.reason),
        Output::RouterInboxListing(listing) => OutputView::RouterInboxListing(
            listing.messages@.map_values(|entry: RouterInboxEntry| entry_view(entry)),
        ),
    }
}

impl RouterInboxEntry {
    /// A second entry with the same slot, sender and body.
    pub fn duplicate(&self) -> (copy: Self)
        ensures
            entry_view(copy) == entry_view(*self),
    {
        RouterInboxEntry {
            message_slot: self.message_slot,
            sender: self.sender.duplicate(),
            body: self.body.clone(),
        }
    }
}

impl Output {
    /// A second record with the same content.
    pub fn duplicate(&self) -> (copy: Self)
        ensures
            output_view(copy) == output_view(*self),
    {
        match self {
            Output::SubmissionAccepted(accepted) => Output::SubmissionAccepted(*accepted),
            Output::SubmissionRejected(rejected) => Output::SubmissionRejected(*rejected),
            Output::RouterInboxListing(listing) => {
                let mut messages: Vec<RouterInboxEntry> = Vec::new();
                let mut index: usize = 0;
                while index < listing.messages.len()
                    invariant
                        index <= listing.messages@.len(),
                        messages@.len() == index,
                        forall|i: int|
                            0 <= i < index ==> #[trigger] entry_view(messages@[i]) == entry_view(
                                listing.messages@[i],
                            ),
                    decreases listing.messages@.len() - index,
                {
                    messages.push(listing.messages[index].duplicate());
                    index = index + 1;
                }
                let copy = Output::RouterInboxListing(RouterInboxListing { messages });
                proof {
                    assert(messages@.map_values(|entry: RouterInboxEntry| entry_view(entry))
                        =~= listing.messages@.map_values(|entry: RouterInboxEntry| entry_view(entry)));
                }
                copy
            },
        }
    }
}

/// The command's reason for a router's rejection reason.
pub open spec fn rejection_reason_of(reason: SignalSubmissionRejectionReason) -> SubmissionRejectionReason {
    match reason {
        SignalSubmissionRejectionReason::StoreRejected => SubmissionRejectionReason::StoreRejected,
        SignalSubmissionRejectionReason::RecipientNotFound => SubmissionRejectionReason::RecipientNotFound,
    }
}

/// The command shows the router's rejection reason under the same name:
/// a refusal by the store as `StoreRejected`, an unknown recipient as
/// `RecipientNotFound`, so that distinct reasons stay distinct.
pub proof fn lemma_rejection_reason_keeps_its_name(
    first: SignalSubmissionRejectionReason,
    second: SignalSubmissionRejectionReason,
)
    ensures
        rejection_reason_of(SignalSubmissionRejectionReason::StoreRejected)
            == SubmissionRejectionReason::StoreRejected,
        rejection_reason_of(SignalSubmissionRejectionReason::RecipientNotFound)
            == SubmissionRejectionReason::RecipientNotFound,
        rejection_reason_of(first) == rejection_reason_of(second) ==> first == second,
{
}

/// Whether an inbox entry of the command's output shows a router's entry.
pub open spec fn is_entry_for(entry: RouterInboxEntry, signal: InboxEntry) -> bool {
    &&& entry.message_slot == signal.message_slot.slot
    &&& entry.sender@ == signal.sender.text@
    &&& entry.body@ == signal.body.text@
}

/// Whether `output` is the record that shows the router reply `reply`.
pub open spec fn is_output_for(reply: MessageReply, output: Output) -> bool {
    match reply {
        MessageReply::SubmissionAccepted(acceptance) => output == Output::SubmissionAccepted(
            SubmissionAccepted { message_slot: acceptance.message_slot.slot },
        ),
        MessageReply::SubmissionRejected(rejection) => output == Output::SubmissionRejected(
            SubmissionRejected { reason: rejection_reason_of(rejection.reason) },
        ),
        MessageReply::InboxListing(listing) => match output {
            Output::RouterInboxListing(shown) => {
                &&& shown.messages@.len() == listing.messages@.len()
                &&& forall|i: int|
                    0 <= i < listing.messages@.len() ==> #[trigger] is_entry_for(
                        shown.messages@[i],
                        listing.messages@[i],
                    )
            },
            _ => false,
        },
        MessageReply::MessageRequestUnimplemented(_) => false,
    }
}

impl Output {
    /// The record that shows a router reply; a reply saying that the
    /// operation is not carried out has no record and is refused.
    pub fn from_router_reply(reply: MessageReply) -> (output: Result<Output, Error>)
        ensures
            match reply {
                MessageReply::MessageRequestUnimplemented(unimplemented) => output == Err::<Output, Error>(
                    Error::UnexpectedRouterReply {
                        got: RouterReplyProblem::Unimplemented { reply: unimplemented },
                    },
                ),
                _ => output matches Ok(shown) && is_output_for(reply, shown),
            },
    {
        match reply {
            MessageReply::SubmissionAccepted(acceptance) => Ok(
                Output::SubmissionAccepted(
                    SubmissionAccepted { message_slot: acceptance.message_slot.slot },
                ),
            ),
            MessageReply::SubmissionRejected(rejection) => Ok(
                Output::SubmissionRejected(
                    SubmissionRejected {
                        reason: SubmissionRejectionReason::from_signal(rejection.reason),
                    },
                ),
            ),
            MessageReply::InboxListing(listing) => {
                let ghost entries = listing.messages@;
                let total: usize = listing.messages.len();
                let mut source = listing.messages;
                let mut shown: Vec<RouterInboxEntry> = Vec::new();
                let mut index: usize = 0;
                while source.len() > 0
                    invariant
                        source@ == entries.subrange(index as int, entries.len() as int),
                        shown@.len() == index,
                        index <= entries.len(),
                        entries.len() == total,
                        forall|i: int| 0 <= i < index ==> #[trigger] is_entry_for(shown@[i], entries[i]),
                    decreases source@.len(),
                {
                    let entry = source.remove(0);
                    let ghost seen = entry;
                    let converted = RouterInboxEntry::from_signal(entry);
                    shown.push(converted);
                    proof {
                        assert(seen == entries[index as int]);
                        assert(is_entry_for(shown@[index as int], entries[index as int]));
                    }
                    index = index + 1;
                    proof {
                        assert(source@ =~= entries.subrange(index as int, entries.len() as int));
                    }
                }
                Ok(Output::RouterInboxListing(RouterInboxListing { messages: shown }))
            },
            MessageReply::MessageRequestUnimplemented(unimplemented) => Err(
                Error::UnexpectedRouterReply {
                    got: RouterReplyProblem::Unimplemented { reply: unimplemented },
                },
            ),
        }
    }
}

impl SubmissionRejectionReason {
    /// The name under which the reason is written.
    pub fn name(&self) -> (name: &'static str)
        ensures
            *self == SubmissionRejectionReason::StoreRejected ==> name@ == "StoreRejected"@,
            *self == SubmissionRejectionReason::RecipientNotFound ==> name@ == "RecipientNotFound"@,
    {
        match self {
            SubmissionRejectionReason::StoreRejected => "StoreRejected",
            SubmissionRejectionReason::RecipientNotFound => "RecipientNotFound",
        }
    }

    /// The reason that a name stands for; any other name is refused.
    pub fn from_name(name: &str) -> (reason: Result<Self, Error>)
        ensures
            name@ == "StoreRejected"@ ==> reason == Ok::<Self, Error>(
                SubmissionRejectionReason::StoreRejected,
            ),
            name@ == "RecipientNotFound"@ ==> reason == Ok::<Self, Error>(
                SubmissionRejectionReason::RecipientNotFound,
            ),
            name@ != "StoreRejected"@ && name@ != "RecipientNotFound"@ ==> (reason matches Err(
                Error::UnknownKindForVerb { verb, got },
            ) && verb@ == "SubmissionRejectionReason"@ && got@ == name@),
    {
        proof {
            reveal_strlit("StoreRejected");
            reveal_strlit("RecipientNotFound");
            assert("StoreRejected"@.len() != "RecipientNotFound"@.len());
        }
        if same_text(name, "StoreRejected") {
            Ok(SubmissionRejectionReason::StoreRejected)
        } else if same_text(name, "RecipientNotFound") {
            Ok(SubmissionRejectionReason::RecipientNotFound)
        } else {
            Err(
                Error::UnknownKindForVerb {
                    verb: String::from_str("SubmissionRejectionReason"),
                    got: String::from_str(name),
                },
            )
        }
    }

    fn from_signal(reason: SignalSubmissionRejectionReason) -> (shown: Self)
        ensures
            shown == rejection_reason_of(reason),
            reason == SignalSubmissionRejectionReason::StoreRejected ==> shown
                == SubmissionRejectionReason::StoreRejected,
            reason == SignalSubmissionRejectionReason::RecipientNotFound ==> shown
                == SubmissionRejectionReason::RecipientNotFound,
    {
        match reason {
            SignalSubmissionRejectionReason::StoreRejected => SubmissionRejectionReason::StoreRejected,
            SignalSubmissionRejectionReason::RecipientNotFound => SubmissionRejectionReason::RecipientNotFound,
        }
    }
}

impl RouterInboxEntry {
    fn from_signal(entry: InboxEntry) -> (shown: Self)
        ensures
            is_entry_for(shown, entry),
    {
        RouterInboxEntry {
            message_slot: entry.message_slot.slot,
            sender: ActorId::new(entry.sender.text),
            body: entry.body.text,
        }
    }
}

/// One command-line argument: its text, with anything that is not valid
/// UTF-8 replaced, whether it was valid UTF-8, and its debug rendering,
/// which shows what was not.
#[derive(Debug)]
pub struct CommandLineArgument {
    pub text: String,
    pub unicode: bool,
    pub debug: String,
}

/// Whether text opens an inline record.
pub open spec fn opens_record(text: Seq<char>) -> bool {
    text.len() > 0 && text[0] == '('
}

impl CommandLineArgument {
    pub fn new(text: String, unicode: bool, debug: String) -> (argument: Self)
        ensures
            argument.text@ == text@,
            argument.unicode == unicode,
            argument.debug@ == debug@,
    {
        CommandLineArgument { text, unicode, debug }
    }

    /// Whether the argument is an inline record rather than a file path.
    pub fn starts_inline_record(&self) -> (inline: bool)
        ensures
            inline == opens_record(self.text@),
    {
        let text = self.text.as_str();
        if text.unicode_len() == 0 {
            return false;
        }
        text.get_char(0) == '('
    }
}

/// Where the command's one input record comes from.
#[derive(Debug)]
pub enum InputSource {
    /// The argument itself is the record.
    InlineRecord(String),
    /// The argument names a file that holds the record.
    InputFile(InputFile),
}

/// A file that holds one input record.
#[derive(Debug)]
pub struct InputFile {
    path: String,
}

impl View for InputFile {
    type V = Seq<char>;

    closed spec fn view(&self) -> Seq<char> {
        self.path@
    }
}

impl InputFile {
    pub fn from_path(path: String) -> (file: Self)
        ensures
            file@ == path@,
    {
        InputFile { path }
    }

    pub fn path(&self) -> (path: &String)
        ensures
            path@ == self@,
    {
        &self.path
    }
}

/// The arguments of the `message` command.
#[derive(Debug)]
pub struct CommandLine {
    arguments: Vec<CommandLineArgument>,
}

impl CommandLine {
    pub closed spec fn arguments(&self) -> Seq<CommandLineArgument> {
        self.arguments@
    }

    pub fn from_arguments(arguments: Vec<CommandLineArgument>) -> (command: Self)
        ensures
            command.arguments() == arguments@,
    {
        CommandLine { arguments }
    }

    /// Where the one input record comes from: the command takes exactly one
    /// argument, an inline record when it opens with `(` and a file path
    /// otherwise.
    pub fn input_source(&self) -> (source: Result<InputSource, Error>)
        ensures
            self.arguments().len() == 0 ==> source == Err::<InputSource, Error>(Error::MissingInput),
            self.arguments().len() >= 2 ==> (source matches Err(Error::UnexpectedArgument { got })
                && got@ == self.arguments()[1].text@),
            self.arguments().len() == 1 ==> {
                let first = self.arguments()[0];
                if opens_record(first.text@) {
                    if first.unicode {
                        source matches Ok(InputSource::InlineRecord(text)) && text@ == first.text@
                    } else {
                        source matches Err(Error::InvalidInlineNotaArgument { got }) && got@
                            == first.debug@
                    }
                } else {
                    source matches Ok(InputSource::InputFile(file)) && file@ == first.text@
                }
            },
    {
        if self.arguments.len() == 0 {
            return Err(Error::MissingInput);
        }
        self.require_single_argument()?;
        let first = &self.arguments[0];
        if first.starts_inline_record() {
            if !first.unicode {
                return Err(Error::InvalidInlineNotaArgument { got: first.debug.clone() });
            }
            Ok(InputSource::InlineRecord(first.text.clone()))
        } else {
            Ok(InputSource::InputFile(InputFile::from_path(first.text.clone())))
        }
    }

    fn require_single_argument(&self) -> (checked: Result<(), Error>)
        ensures
            self.arguments().len() >= 2 ==> (checked matches Err(Error::UnexpectedArgument { got })
                && got@ == self.arguments()[1].text@),
            self.arguments().len() < 2 ==> checked is Ok,
    {
        if self.arguments.len() >= 2 {
            return Err(Error::UnexpectedArgument { got: self.arguments[1].text.clone() });
        }
        Ok(())
    }
}

} // verus!
