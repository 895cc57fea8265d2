use vstd::prelude::*;

use crate::command::{
    output_view, CommandLineArgument, Output, RouterInboxEntry, RouterInboxListing,
};
use crate::error::{Error, OutputProblem, ValidatorArgumentProblem};
use crate::surface::RecipientName;
use crate::text::same_text;

verus! {

/// A command-line argument as the validator's contracts see it: its text,
/// whether it was valid UTF-8, and its debug rendering.
pub open spec fn argument_view(argument: CommandLineArgument) -> (Seq<char>, bool, Seq<char>) {
    (argument.text@, argument.unicode, argument.debug@)
}

/// Why the validator's arguments were refused, in terms of texts.
pub enum ArgumentProblem {
    MissingValue { name: Seq<char> },
    NotUnicode { name: Seq<char>, got: Seq<char> },
    ExpectedOption { name: Seq<char>, got: Seq<char> },
    UnknownExpectation { got: Seq<char> },
    UnexpectedArgument { got: Seq<char> },
}

/// The problem an error reports, when it is one of the argument problems.
pub open spec fn argument_problem_of(error: Error) -> Option<ArgumentProblem> {
    match error {
        Error::InvalidValidatorArgument { detail } => match detail {
            ValidatorArgumentProblem::MissingValue { name } => Some(
                ArgumentProblem::MissingValue { name: name@ },
            ),
            ValidatorArgumentProblem::NotUnicode { name, got } => Some(
                ArgumentProblem::NotUnicode { name: name@, got: got@ },
            ),
            ValidatorArgumentProblem::ExpectedOption { name, got } => Some(
                ArgumentProblem::ExpectedOption { name: name@, got: got@ },
            ),
            ValidatorArgumentProblem::UnknownExpectation { got } => Some(
                ArgumentProblem::UnknownExpectation { got: got@ },
            ),
        },
        Error::UnexpectedArgument { got } => Some(ArgumentProblem::UnexpectedArgument { got: got@ }),
        _ => None,
    }
}

/// Whether `result` is the exec form of `expected`, its `Ok` values related
/// by `same`.
pub open spec fn agrees<T, V>(
    result: Result<T, Error>,
    expected: Result<V, ArgumentProblem>,
    same: spec_fn(T, V) -> bool,
) -> bool {
    match expected {
        Ok(value) => result matches Ok(got) && same(got, value),
        Err(problem) => result matches Err(error) && argument_problem_of(error) == Some(problem),
    }
}

/// The argument at `index`, and the index after it.
pub open spec fn value_at(arguments: Seq<(Seq<char>, bool, Seq<char>)>, index: int, name: Seq<char>) -> Result<
    ((Seq<char>, bool, Seq<char>), int),
    ArgumentProblem,
> {
    if 0 <= index < arguments.len() {
        Ok((arguments[index], index + 1))
    } else {
        Err(ArgumentProblem::MissingValue { name })
    }
}

/// The text argument at `index`, and the index after it.
pub open spec fn word_at(arguments: Seq<(Seq<char>, bool, Seq<char>)>, index: int, name: Seq<char>) -> Result<
    (Seq<char>, int),
    ArgumentProblem,
> {
    match value_at(arguments, index, name) {
        Ok((argument, next)) => if argument.1 {
            Ok((argument.0, next))
        } else {
            Err(ArgumentProblem::NotUnicode { name, got: argument.2 })
        },
        Err(problem) => Err(problem),
    }
}

/// The index after the option name `name` at `index`.
pub open spec fn option_name_at(arguments: Seq<(Seq<char>, bool, Seq<char>)>, index: int, name: Seq<char>) -> Result<
    int,
    ArgumentProblem,
> {
    match word_at(arguments, index, "option"@) {
        Ok((got, next)) => if got == name {
            Ok(next)
        } else {
            Err(ArgumentProblem::ExpectedOption { name, got })
        },
        Err(problem) => Err(problem),
    }
}

/// The path given with option `name` at `index`, and the index after it.
pub open spec fn path_option_at(arguments: Seq<(Seq<char>, bool, Seq<char>)>, index: int, name: Seq<char>) -> Result<
    (Seq<char>, int),
    ArgumentProblem,
> {
    match option_name_at(arguments, index, name) {
        Ok(next) => match value_at(arguments, next, name) {
            Ok((argument, after)) => Ok((argument.0, after)),
            Err(problem) => Err(problem),
        },
        Err(problem) => Err(problem),
    }
}

/// The text given with option `name` at `index`, and the index after it.
pub open spec fn string_option_at(arguments: Seq<(Seq<char>, bool, Seq<char>)>, index: int, name: Seq<char>) -> Result<
    (Seq<char>, int),
    ArgumentProblem,
> {
    match option_name_at(arguments, index, name) {
        Ok(next) => word_at(arguments, next, name),
        Err(problem) => Err(problem),
    }
}

/// The text given with option `name` at `index` if that option stands
/// there, and the index after what was read.
pub open spec fn optional_string_option_at(
    arguments: Seq<(Seq<char>, bool, Seq<char>)>,
    index: int,
    name: Seq<char>,
) -> Result<(Option<Seq<char>>, int), ArgumentProblem> {
    if 0 <= index < arguments.len() && arguments[index].0 == name {
        match word_at(arguments, index + 1, name) {
            Ok((word, next)) => Ok((Some(word), next)),
            Err(problem) => Err(problem),
        }
    } else {
        Ok((None, index))
    }
}

/// An expectation on an output record, in terms of texts.
pub enum ExpectationView {
    SubmissionAccepted,
    InboxEntryPresent { sender: Option<Seq<char>>, body: Seq<char> },
    InboxBodyAbsent { body: Seq<char> },
}

/// The expectation written at `index`, and the index after it.
pub open spec fn expectation_at(arguments: Seq<(Seq<char>, bool, Seq<char>)>, index: int) -> Result<
    (ExpectationView, int),
    ArgumentProblem,
> {
    match word_at(arguments, index, "expectation"@) {
        Ok((word, next)) => if word == "expect-submission-accepted"@ {
            Ok((ExpectationView::SubmissionAccepted, next))
        } else if word == "expect-inbox-entry"@ {
            match optional_string_option_at(arguments, next, "--sender"@) {
                Ok((sender, after_sender)) => match string_option_at(arguments, after_sender, "--body"@) {
                    Ok((body, after_body)) => Ok(
                        (ExpectationView::InboxEntryPresent { sender, body }, after_body),
                    ),
                    Err(problem) => Err(problem),
                },
                Err(problem) => Err(problem),
            }
        } else if word == "expect-inbox-body-absent"@ {
            match string_option_at(arguments, next, "--body"@) {
                Ok((body, after_body)) => Ok((ExpectationView::InboxBodyAbsent { body }, after_body)),
                Err(problem) => Err(problem),
            }
        } else {
            Err(ArgumentProblem::UnknownExpectation { got: word })
        },
        Err(problem) => Err(problem),
    }
}

/// What the validator's whole argument list asks for: `--file PATH`, then
/// one expectation, then nothing more.
pub open spec fn validation_of(arguments: Seq<(Seq<char>, bool, Seq<char>)>) -> Result<
    (Seq<char>, ExpectationView),
    ArgumentProblem,
> {
    match path_option_at(arguments, 0, "--file"@) {
        Ok((path, next)) => match expectation_at(arguments, next) {
            Ok((expectation, end)) => if end < arguments.len() {
                Err(ArgumentProblem::UnexpectedArgument { got: arguments[end].0 })
            } else {
                Ok((path, expectation))
            },
            Err(problem) => Err(problem),
        },
        Err(problem) => Err(problem),
    }
}

/// Reads the validator's arguments from left to right.
pub struct OutputValidatorArguments<'arguments> {
    arguments: &'arguments [CommandLineArgument],
    index: usize,
}

impl<'arguments> OutputValidatorArguments<'arguments> {
    pub closed spec fn viewed(&self) -> Seq<(Seq<char>, bool, Seq<char>)> {
        self.arguments@.map_values(|argument: CommandLineArgument| argument_view(argument))
    }

    pub closed spec fn position(&self) -> int {
        self.index as int
    }

    pub closed spec fn length(&self) -> int {
        self.arguments@.len() as int
    }

    pub closed spec fn wf(&self) -> bool {
        self.index <= self.arguments@.len()
    }

    pub fn new(arguments: &'arguments [CommandLineArgument]) -> (parser: Self)
        ensures
            parser.wf(),
            parser.position() == 0,
            parser.viewed() == arguments@.map_values(
                |argument: CommandLineArgument| argument_view(argument),
            ),
    {
        OutputValidatorArguments { arguments, index: 0 }
    }

    fn required_value(&mut self, name: &str) -> (value: Result<String, Error>)
        requires
            old(self).wf(),
        ensures
            final(self).wf(),
            final(self).viewed() == old(self).viewed(),
            agrees(
                value,
                match value_at(old(self).viewed(), old(self).position(), name@) {
                    Ok((argument, next)) => Ok(argument.0),
                    Err(problem) => Err(problem),
                },
                |got: String, text: Seq<char>| got@ == text,
            ),
            value is Ok ==> final(self).position() == old(self).position() + 1,
            value is Err ==> final(self).position() == old(self).position(),
    {
        if self.index >= self.arguments.len() {
            return Err(
                Error::InvalidValidatorArgument {
                    detail: ValidatorArgumentProblem::MissingValue { name: String::from_str(name) },
                },
            );
        }
        let value = self.arguments[self.index].text.clone();
        self.index = self.index + 1;
        Ok(value)
    }

    fn required_word(&mut self, name: &str) -> (word: Result<String, Error>)
        requires
            old(self).wf(),
        ensures
            final(self).wf(),
            final(self).viewed() == old(self).viewed(),
            agrees(
                word,
                match word_at(old(self).viewed(), old(self).position(), name@) {
                    Ok((text, next)) => Ok(text),
                    Err(problem) => Err(problem),
                },
                |got: String, text: Seq<char>| got@ == text,
            ),
            word matches Ok(_) ==> (word_at(old(self).viewed(), old(self).position(), name@)
                matches Ok((_, next)) && final(self).position() == next),
    {
        let start = self.index;
        let value = self.required_value(name)?;
        if !self.arguments[start].unicode {
            return Err(
                Error::InvalidValidatorArgument {
                    detail: ValidatorArgumentProblem::NotUnicode {
                        name: String::from_str(name),
                        got: self.arguments[start].debug.clone(),
                    },
                },
            );
        }
        Ok(value)
    }

    fn expect_option_name(&mut self, name: &str) -> (checked: Result<(), Error>)
        requires
            old(self).wf(),
        ensures
            final(self).wf(),
            final(self).viewed() == old(self).viewed(),
            agrees(
                checked,
                match option_name_at(old(self).viewed(), old(self).position(), name@) {
                    Ok(next) => Ok(()),
                    Err(problem) => Err(problem),
                },
                |got: (), unit: ()| true,
            ),
            checked is Ok ==> option_name_at(old(self).viewed(), old(self).position(), name@)
                == Ok::<int, ArgumentProblem>(final(self).position()),
    {
        proof {
            reveal_strlit("option");
        }
        let got = self.required_word("option")?;
        if same_text(got.as_str(), name) {
            return Ok(());
        }
        Err(
            Error::InvalidValidatorArgument {
                detail: ValidatorArgumentProblem::ExpectedOption { name: String::from_str(name), got },
            },
        )
    }

    fn required_path_option(&mut self, name: &str) -> (path: Result<String, Error>)
        requires
            old(self).wf(),
        ensures
            final(self).wf(),
            final(self).viewed() == old(self).viewed(),
            agrees(
                path,
                match path_option_at(old(self).viewed(), old(self).position(), name@) {
                    Ok((text, next)) => Ok(text),
                    Err(problem) => Err(problem),
                },
                |got: String, text: Seq<char>| got@ == text,
            ),
            path is Ok ==> (path_option_at(old(self).viewed(), old(self).position(), name@)
                matches Ok((_, next)) && final(self).position() == next),
    {
        self.expect_option_name(name)?;
        self.required_value(name)
    }

    fn required_string_option(&mut self, name: &str) -> (word: Result<String, Error>)
        requires
            old(self).wf(),
        ensures
            final(self).wf(),
            final(self).viewed() == old(self).viewed(),
            agrees(
                word,
                match string_option_at(old(self).viewed(), old(self).position(), name@) {
                    Ok((text, next)) => Ok(text),
                    Err(problem) => Err(problem),
                },
                |got: String, text: Seq<char>| got@ == text,
            ),
            word is Ok ==> (string_option_at(old(self).viewed(), old(self).position(), name@)
                matches Ok((_, next)) && final(self).position() == next),
    {
        self.expect_option_name(name)?;
        self.required_word(name)
    }

    fn optional_string_option(&mut self, name: &str) -> (word: Result<Option<String>, Error>)
        requires
            old(self).wf(),
        ensures
            final(self).wf(),
            final(self).viewed() == old(self).viewed(),
            agrees(
                word,
                match optional_string_option_at(old(self).viewed(), old(self).position(), name@) {
                    Ok((text, next)) => Ok(text),
                    Err(problem) => Err(problem),
                },
                |got: Option<String>, text: Option<Seq<char>>| match got {
                    Some(g) => text == Some(g@),
                    None => text is None,
                },
            ),
            word is Ok ==> (optional_string_option_at(old(self).viewed(), old(self).position(), name@)
                matches Ok((_, next)) && final(self).position() == next),
    {
        let count = self.arguments.len();
        if let Some(peeked) = self.peek_word() {
            if same_text(peeked.as_str(), name) {
                assert(self.index < count);
                self.index = self.index + 1;
                let word = self.required_word(name)?;
                return Ok(Some(word));
            }
        }
        Ok(None)
    }

    fn expect_finished(&self) -> (finished: Result<(), Error>)
        requires
            self.wf(),
        ensures
            self.position() < self.length() ==> (finished matches Err(error) && argument_problem_of(
                error,
            ) == Some(ArgumentProblem::UnexpectedArgument { got: self.viewed()[self.position()].0 })),
            self.position() >= self.length() ==> finished is Ok,
    {
        if self.index < self.arguments.len() {
            return Err(Error::UnexpectedArgument { got: self.arguments[self.index].text.clone() });
        }
        Ok(())
    }

    fn peek_word(&self) -> (word: Option<String>)
        requires
            self.wf(),
        ensures
            self.position() < self.length() ==> (word matches Some(text) && text@
                == self.viewed()[self.position()].0),
            self.position() >= self.length() ==> word is None,
    {
        if self.index < self.arguments.len() {
            Some(self.arguments[self.index].text.clone())
        } else {
            None
        }
    }
}

/// What the validator expects of the record that the `message` command
/// printed.
#[derive(Debug)]
pub enum OutputExpectation {
    /// The router accepted the submission.
    SubmissionAccepted,
    /// The inbox listing holds an entry with this body, from this sender
    /// when one is named.
    InboxEntryPresent { sender: Option<RecipientName>, body: String },
    /// No entry of the inbox listing has this body.
    InboxBodyAbsent { body: String },
}

pub open spec fn expectation_view(expectation: OutputExpectation) -> ExpectationView {
    match expectation {
        OutputExpectation::SubmissionAccepted => ExpectationView::SubmissionAccepted,
        OutputExpectation::InboxEntryPresent { sender, body } => ExpectationView::InboxEntryPresent {
            sender: match sender {
                Some(name) => Some(name@),
                None => None,
            },
            body: body@,
        },
        OutputExpectation::InboxBodyAbsent { body } => ExpectationView::InboxBodyAbsent { body: body@ },
    }
}

/// Whether one of the entries has this body, and this sender when one is
/// named.
pub open spec fn has_entry(
    entries: Seq<RouterInboxEntry>,
    sender: Option<Seq<char>>,
    body: Seq<char>,
) -> bool {
    exists|i: int|
        0 <= i < entries.len() && #[trigger] entries[i].body@ == body && match sender {
            Some(name) => entries[i].sender@ == name,
            None => true,
        }
}

/// An inbox listing holds an entry exactly when an entry at some position,
/// any position, has the body, and the sender when one is named.
pub proof fn lemma_has_entry_is_membership(
    entries: Seq<RouterInboxEntry>,
    sender: Option<Seq<char>>,
    body: Seq<char>,
    i: int,
)
    ensures
        0 <= i < entries.len() && entries[i].body@ == body && (sender is None || entries[i].sender@
            == sender->0) ==> has_entry(entries, sender, body),
        has_entry(entries, sender, body) ==> exists|j: int|
            0 <= j < entries.len() && #[trigger] entries[j].body@ == body && (sender is None
                || entries[j].sender@ == sender->0),
        has_body(entries, body) <==> exists|j: int|
            0 <= j < entries.len() && #[trigger] entries[j].body@ == body,
        has_entry(entries, None, body) <==> has_body(entries, body),
{
    if 0 <= i < entries.len() && entries[i].body@ == body && (sender is None || entries[i].sender@
        == sender->0) {
        assert(entries[i].body@ == body);
    }
}

/// Whether one of the entries has this body.
pub open spec fn has_body(entries: Seq<RouterInboxEntry>, body: Seq<char>) -> bool {
    exists|i: int| 0 <= i < entries.len() && #[trigger] entries[i].body@ == body
}

/// Which way an output record fails an expectation.
pub enum ProblemKind {
    ExpectedSubmissionAccepted,
    ExpectedRouterInboxListing,
    MissingInboxEntry,
    UnexpectedInboxBody,
}

/// What an expectation finds wrong with an output record, if anything.
pub open spec fn problem_with(expectation: ExpectationView, output: Output) -> Option<ProblemKind> {
    match expectation {
        ExpectationView::SubmissionAccepted => match output {
            Output::SubmissionAccepted(_) => None,
            _ => Some(ProblemKind::ExpectedSubmissionAccepted),
        },
        ExpectationView::InboxEntryPresent { sender, body } => match output {
            Output::RouterInboxListing(listing) => if has_entry(listing.messages@, sender, body) {
                None
            } else {
                Some(ProblemKind::MissingInboxEntry)
            },
            _ => Some(ProblemKind::ExpectedRouterInboxListing),
        },
        ExpectationView::InboxBodyAbsent { body } => match output {
            Output::RouterInboxListing(listing) => if has_body(listing.messages@, body) {
                Some(ProblemKind::UnexpectedInboxBody)
            } else {
                None
            },
            _ => Some(ProblemKind::ExpectedRouterInboxListing),
        },
    }
}

/// Whether an error reports, of `output`, the problem of kind `kind` with
/// what the expectation looked for.
pub open spec fn reports(
    error: Error,
    kind: ProblemKind,
    expectation: ExpectationView,
    output: Output,
) -> bool {
    match error {
        Error::OutputValidation { detail } => match kind {
            ProblemKind::ExpectedSubmissionAccepted => detail matches OutputProblem::ExpectedSubmissionAccepted {
                got,
            } && output_view(got) == output_view(output),
            ProblemKind::ExpectedRouterInboxListing => detail matches OutputProblem::ExpectedRouterInboxListing {
                got,
            } && output_view(got) == output_view(output),
            ProblemKind::MissingInboxEntry => match (detail, expectation) {
                (
                    OutputProblem::MissingInboxEntry { sender, body, output: shown },
                    ExpectationView::InboxEntryPresent { sender: wanted, body: wanted_body },
                ) => {
                    &&& match sender {
                        Some(name) => wanted == Some(name@),
                        None => wanted is None,
                    }
                    &&& body@ == wanted_body
                    &&& output_view(shown) == output_view(output)
                },
                _ => false,
            },
            ProblemKind::UnexpectedInboxBody => match (detail, expectation) {
                (
                    OutputProblem::UnexpectedInboxBody { body, output: shown },
                    ExpectationView::InboxBodyAbsent { body: wanted_body },
                ) => body@ == wanted_body && output_view(shown) == output_view(output),
                _ => false,
            },
        },
        _ => false,
    }
}

/// Whether `result` is what checking `output` against an expectation gives:
/// success when nothing is wrong, and otherwise the error that reports the
/// problem with the record and what was looked for.
pub open spec fn is_check_result(
    expectation: ExpectationView,
    output: Output,
    result: Result<(), Error>,
) -> bool {
    match problem_with(expectation, output) {
        None => result is Ok,
        Some(kind) => result matches Err(error) && reports(error, kind, expectation, output),
    }
}

impl OutputExpectation {
    /// Reads one expectation and its options.
    pub fn from_parser(parser: &mut OutputValidatorArguments) -> (expectation: Result<Self, Error>)
        requires
            old(parser).wf(),
        ensures
            final(parser).wf(),
            final(parser).viewed() == old(parser).viewed(),
            agrees(
                expectation,
                match expectation_at(old(parser).viewed(), old(parser).position()) {
                    Ok((view, next)) => Ok(view),
                    Err(problem) => Err(problem),
                },
                |got: OutputExpectation, view: ExpectationView| expectation_view(got) == view,
            ),
            expectation is Ok ==> (expectation_at(old(parser).viewed(), old(parser).position())
                matches Ok((_, next)) && final(parser).position() == next),
    {
        proof {
            reveal_strlit("expectation");
            reveal_strlit("--sender");
            reveal_strlit("--body");
        }
        let word = parser.required_word("expectation")?;
        if same_text(word.as_str(), "expect-submission-accepted") {
            Ok(OutputExpectation::SubmissionAccepted)
        } else if same_text(word.as_str(), "expect-inbox-entry") {
            let sender = parser.optional_string_option("--sender")?;
            let body = parser.required_string_option("--body")?;
            let sender = match sender {
                Some(name) => Some(RecipientName::new(name)),
                None => None,
            };
            Ok(OutputExpectation::InboxEntryPresent { sender, body })
        } else if same_text(word.as_str(), "expect-inbox-body-absent") {
            let body = parser.required_string_option("--body")?;
            Ok(OutputExpectation::InboxBodyAbsent { body })
        } else {
            Err(
                Error::InvalidValidatorArgument {
                    detail: ValidatorArgumentProblem::UnknownExpectation { got: word },
                },
            )
        }
    }

    /// Checks an output record against this expectation.
    pub fn check(&self, output: &Output) -> (checked: Result<(), Error>)
        ensures
            is_check_result(expectation_view(*self), *output, checked),
    {
        match self {
            OutputExpectation::SubmissionAccepted => self.check_submission_accepted(output),
            OutputExpectation::InboxEntryPresent { sender, body } => {
                let sender = match sender {
                    Some(name) => Some(name),
                    None => None,
                };
                self.check_inbox_entry_present(output, sender, body.as_str())
            },
            OutputExpectation::InboxBodyAbsent { body } => self.check_inbox_body_absent(output, body.as_str()),
        }
    }

    fn check_submission_accepted(&self, output: &Output) -> (checked: Result<(), Error>)
        ensures
            is_check_result(ExpectationView::SubmissionAccepted, *output, checked),
    {
        match output {
            Output::SubmissionAccepted(_) => Ok(()),
            _ => Err(
                Error::OutputValidation {
                    detail: OutputProblem::ExpectedSubmissionAccepted { got: output.duplicate() },
                },
            ),
        }
    }

    fn check_inbox_entry_present(
        &self,
        output: &Output,
        sender: Option<&RecipientName>,
        body: &str,
    ) -> (checked: Result<(), Error>)
        ensures
            is_check_result(
                ExpectationView::InboxEntryPresent {
                    sender: match sender {
                        Some(name) => Some(name@),
                        None => None,
                    },
                    body: body@,
                },
                *output,
                checked,
            ),
    {
        let listing = RouterInboxOutput::from_output(output)?;
        if listing.contains_entry(sender, body) {
            return Ok(());
        }
        let sender = match sender {
            Some(name) => Some(String::from_str(name.as_str())),
            None => None,
        };
        Err(
            Error::OutputValidation {
                detail: OutputProblem::MissingInboxEntry {
                    sender,
                    body: String::from_str(body),
                    output: output.duplicate(),
                },
            },
        )
    }

    fn check_inbox_body_absent(&self, output: &Output, body: &str) -> (checked: Result<(), Error>)
        ensures
            is_check_result(ExpectationView::InboxBodyAbsent { body: body@ }, *output, checked),
    {
        let listing = RouterInboxOutput::from_output(output)?;
        if listing.contains_body(body) {
            return Err(
                Error::OutputValidation {
                    detail: OutputProblem::UnexpectedInboxBody {
                        body: String::from_str(body),
                        output: output.duplicate(),
                    },
                },
            );
        }
        Ok(())
    }
}

/// The inbox listing inside an output record.
pub struct RouterInboxOutput<'output> {
    listing: &'output RouterInboxListing,
}

impl<'output> RouterInboxOutput<'output> {
    pub closed spec fn entries(&self) -> Seq<RouterInboxEntry> {
        self.listing.messages@
    }

    /// The listing of an output record that is one.
    pub fn from_output(output: &'output Output) -> (listing: Result<Self, Error>)
        ensures
            match *output {
                Output::RouterInboxListing(shown) => listing matches Ok(found) && found.entries()
                    == shown.messages@,
                _ => listing matches Err(Error::OutputValidation {
                    detail: OutputProblem::ExpectedRouterInboxListing { got },
                }) && output_view(got) == output_view(*output),
            },
    {
        match output {
            Output::RouterInboxListing(listing) => Ok(RouterInboxOutput { listing }),
            _ => Err(
                Error::OutputValidation {
                    detail: OutputProblem::ExpectedRouterInboxListing { got: output.duplicate() },
                },
            ),
        }
    }

    /// Whether an entry has this body, and this sender when one is named.
    pub fn contains_entry(&self, sender: Option<&RecipientName>, body: &str) -> (found: bool)
        ensures
            found == has_entry(
                self.entries(),
                match sender {
                    Some(name) => Some(name@),
                    None => None,
                },
                body@,
            ),
            found <==> exists|i: int|
                0 <= i < self.entries().len() && #[trigger] self.entries()[i].body@ == body@
                    && match sender {
                    Some(name) => self.entries()[i].sender@ == name@,
                    None => true,
                },
    {
        let ghost wanted = match sender {
            Some(name) => Some(name@),
            None => None,
        };
        let mut index: usize = 0;
        while index < self.listing.messages.len()
            invariant
                index <= self.listing.messages@.len(),
                wanted == match sender {
                    Some(name) => Some(name@),
                    None => None::<Seq<char>>,
                },
                forall|j: int|
                    0 <= j < index ==> !(#[trigger] self.listing.messages@[j].body@ == body@
                        && match wanted {
                        Some(name) => self.listing.messages@[j].sender@ == name,
                        None => true,
                    }),
            decreases self.listing.messages@.len() - index,
        {
            let entry = &self.listing.messages[index];
            let body_matches = same_text(entry.body.as_str(), body);
            let sender_matches = match sender {
                Some(expected) => {
                    same_text(entry.sender.as_str(), expected.as_str())
                },
                None => true,
            };
            assert(sender_matches == match wanted {
                Some(name) => self.listing.messages@[index as int].sender@ == name,
                None => true,
            });
            if body_matches && sender_matches {
                assert(self.listing.messages@[index as int].body@ == body@);
                assert(self.entries()[index as int].body@ == body@);
                return true;
            }
            index = index + 1;
        }
        assert forall|i: int|
            0 <= i < self.entries().len() && #[trigger] self.entries()[i].body@ == body@ implies !match sender {
            Some(name) => self.entries()[i].sender@ == name@,
            None => true,
        } by {
            assert(self.listing.messages@[i].body@ == body@);
        }
        false
    }

    /// Whether an entry has this body.
    pub fn contains_body(&self, body: &str) -> (found: bool)
        ensures
            found == has_body(self.entries(), body@),
    {
        let mut index: usize = 0;
        while index < self.listing.messages.len()
            invariant
                index <= self.listing.messages@.len(),
                forall|j: int| 0 <= j < index ==> !(#[trigger] self.listing.messages@[j].body@ == body@),
            decreases self.listing.messages@.len() - index,
        {
            if same_text(self.listing.messages[index].body.as_str(), body) {
                assert(self.listing.messages@[index as int].body@ == body@);
                return true;
            }
            index = index + 1;
        }
        false
    }
}

/// The file to check and what to expect of it.
#[derive(Debug)]
pub struct OutputValidation {
    pub output_path: String,
    pub expectation: OutputExpectation,
}

impl OutputValidation {
    /// Reads `--file PATH` and one expectation from the validator's
    /// arguments, refusing anything left over.
    pub fn from_arguments(arguments: &[CommandLineArgument]) -> (validation: Result<Self, Error>)
        ensures
            agrees(
                validation,
                validation_of(
                    arguments@.map_values(|argument: CommandLineArgument| argument_view(argument)),
                ),
                |got: OutputValidation, view: (Seq<char>, ExpectationView)| {
                    &&& got.output_path@ == view.0
                    &&& expectation_view(got.expectation) == view.1
                },
            ),
    {
        proof {
            reveal_strlit("--file");
        }
        let mut parser = OutputValidatorArguments::new(arguments);
        let output_path = parser.required_path_option("--file")?;
        let expectation = OutputExpectation::from_parser(&mut parser)?;
        parser.expect_finished()?;
        Ok(OutputValidation { output_path, expectation })
    }

    /// Checks the printed output record against the expectation.
    pub fn check(&self, output: &Output) -> (checked: Result<(), Error>)
        ensures
            is_check_result(expectation_view(self.expectation), *output, checked),
    {
        self.expectation.check(output)
    }
}

/// The validator's command line.
#[derive(Debug)]
pub struct OutputValidatorCommandLine {
    arguments: Vec<CommandLineArgument>,
}

impl OutputValidatorCommandLine {
    pub closed spec fn arguments(&self) -> Seq<CommandLineArgument> {
        self.arguments@
    }

    pub fn from_arguments(arguments: Vec<CommandLineArgument>) -> (command: Self)
        ensures
            command.arguments() == arguments@,
    {
        OutputValidatorCommandLine { arguments }
    }

    /// What the command line asks to check.
    pub fn validation(&self) -> (validation: Result<OutputValidation, Error>)
        ensures
            agrees(
                validation,
                validation_of(
                    self.arguments().map_values(|argument: CommandLineArgument| argument_view(argument)),
                ),
                |got: OutputValidation, view: (Seq<char>, ExpectationView)| {
                    &&& got.output_path@ == view.0
                    &&& expectation_view(got.expectation) == view.1
                },
            ),
    {
        OutputValidation::from_arguments(self.arguments.as_slice())
    }
}

} // verus!
