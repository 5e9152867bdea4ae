//! The publish command as a state machine: one decision per event.
//!
//! Whoever drives the command performs each action (a lookup, a delivery,
//! a save) and hands back what came of it as the next event. The machine
//! itself touches nothing outside.

use super::content::{
    recipient_view, recipients_view, ConfirmedSubscriber, ContentView, FormData, FormView,
    NewsletterContent,
};
use crate::domain::SubscriberEmail;
use crate::idempotency::key::{key_error, IdempotencyKey, ValidationError};
use crate::idempotency::persistence::UserId;
use crate::idempotency::response::{
    see_other_view, Response, ResponseView, BAD_REQUEST, INTERNAL_SERVER_ERROR,
};
use vstd::prelude::*;
use vstd::string::StringExecFns;

verus! {

/// A submission whose key was accepted.
pub struct SubmissionView {
    pub user_id: UserId,
    pub key: Seq<char>,
    pub content: ContentView,
}

/// A submission whose key was accepted.
#[derive(Debug)]
pub struct Submission {
    pub user_id: UserId,
    pub key: IdempotencyKey,
    pub content: NewsletterContent,
}

impl View for Submission {
    type V = SubmissionView;

    open spec fn view(&self) -> SubmissionView {
        SubmissionView { user_id: self.user_id, key: self.key@, content: self.content@ }
    }
}

/// What a state of the command is.
pub enum StateView {
    KeyReceived { user_id: UserId, form: FormView },
    KeyValidated { submission: SubmissionView },
    AwaitingSubscribers { submission: SubmissionView },
    Sending { submission: SubmissionView, recipients: Seq<Result<Seq<char>, Seq<char>>>, cursor: int },
    Skipping { submission: SubmissionView, recipients: Seq<Result<Seq<char>, Seq<char>>>, cursor: int },
    Saving,
    Rejected,
    Replayed,
    Completed,
    Failed,
}

/// Where one invocation of the publish command stands.
///
/// `AwaitingSubscribers`, `Sending`, `Skipping` and `Saving` are the stages
/// of the execution proper; the last four states are final.
#[derive(Debug)]
pub enum PublishState {
    /// The submission has arrived; its key is not validated yet.
    KeyReceived { user_id: UserId, form: FormData },
    /// The key is valid; the lookup of a saved response is out.
    KeyValidated { submission: Submission },
    /// Nothing was saved; the snapshot of confirmed subscribers is out.
    AwaitingSubscribers { submission: Submission },
    /// The delivery to `recipients[cursor]` is out.
    Sending { submission: Submission, recipients: Vec<Result<ConfirmedSubscriber, String>>, cursor: usize },
    /// The warning about `recipients[cursor]`, which is skipped, is out.
    Skipping { submission: Submission, recipients: Vec<Result<ConfirmedSubscriber, String>>, cursor: usize },
    /// Every recipient was served or skipped; the save of the response is out.
    Saving,
    /// The key was refused. Nothing was looked up, sent or saved.
    Rejected,
    /// A saved response was handed back. Nothing was sent or saved.
    Replayed,
    /// The newsletter went out and the response was saved.
    Completed,
    /// A fatal failure ended the command. Nothing was saved.
    Failed,
}

impl View for PublishState {
    type V = StateView;

    open spec fn view(&self) -> StateView {
        match *self {
            PublishState::KeyReceived { user_id, form } => StateView::KeyReceived {
                user_id,
                form: form@,
            },
            PublishState::KeyValidated { submission } => StateView::KeyValidated {
                submission: submission@,
            },
            PublishState::AwaitingSubscribers { submission } => StateView::AwaitingSubscribers {
                submission: submission@,
            },
            PublishState::Sending { submission, recipients, cursor } => StateView::Sending {
                submission: submission@,
                recipients: recipients_view(recipients@),
                cursor: cursor as int,
            },
            PublishState::Skipping { submission, recipients, cursor } => StateView::Skipping {
                submission: submission@,
                recipients: recipients_view(recipients@),
                cursor: cursor as int,
            },
            PublishState::Saving => StateView::Saving,
            PublishState::Rejected => StateView::Rejected,
            PublishState::Replayed => StateView::Replayed,
            PublishState::Completed => StateView::Completed,
            PublishState::Failed => StateView::Failed,
        }
    }
}

/// What an event is.
pub enum EventView {
    Begin,
    Lookup(Result<Option<ResponseView>, Seq<char>>),
    Subscribers(Result<Seq<Result<Seq<char>, Seq<char>>>, Seq<char>>),
    Sent(Result<(), Seq<char>>),
    Warned,
    Saved(Result<ResponseView, Seq<char>>),
}

/// What came of the action that is out. A failure carries its cause in
/// words.
#[derive(Debug)]
pub enum PublishEvent {
    /// The command is started.
    Begin,
    /// The response saved for the caller under the key, if there is one.
    Lookup(Result<Option<Response>, String>),
    /// The confirmed subscribers at this moment, each validated again.
    Subscribers(Result<Vec<Result<ConfirmedSubscriber, String>>, String>),
    /// The delivery was attempted.
    Sent(Result<(), String>),
    /// The warning was recorded.
    Warned,
    /// The response was saved and is handed back, or could not be saved.
    Saved(Result<Response, String>),
}

impl View for PublishEvent {
    type V = EventView;

    open spec fn view(&self) -> EventView {
        match *self {
            PublishEvent::Begin => EventView::Begin,
            PublishEvent::Lookup(Ok(Some(saved))) => EventView::Lookup(Ok(Some(saved@))),
            PublishEvent::Lookup(Ok(None)) => EventView::Lookup(Ok(None)),
            PublishEvent::Lookup(Err(cause)) => EventView::Lookup(Err(cause@)),
            PublishEvent::Subscribers(Ok(recipients)) => EventView::Subscribers(
                Ok(recipients_view(recipients@)),
            ),
            PublishEvent::Subscribers(Err(cause)) => EventView::Subscribers(Err(cause@)),
            PublishEvent::Sent(Ok(_)) => EventView::Sent(Ok(())),
            PublishEvent::Sent(Err(cause)) => EventView::Sent(Err(cause@)),
            PublishEvent::Warned => EventView::Warned,
            PublishEvent::Saved(Ok(response)) => EventView::Saved(Ok(response@)),
            PublishEvent::Saved(Err(cause)) => EventView::Saved(Err(cause@)),
        }
    }
}

/// What an action is.
pub enum ActionView {
    Lookup { user_id: UserId, key: Seq<char> },
    FetchSubscribers,
    Send { to: Seq<char>, content: ContentView },
    Warn { cause: Seq<char> },
    Save { user_id: UserId, key: Seq<char>, response: ResponseView },
    Respond(ResponseView),
    Reject(ValidationError),
    Fail(Seq<char>),
}

/// What the driver is to do next. `Respond`, `Reject` and `Fail` end the
/// command; every other action is answered by an event.
#[derive(Debug)]
pub enum PublishAction {
    /// Look up the response saved for the caller under the key.
    Lookup { user_id: UserId, key: IdempotencyKey },
    /// Fetch the confirmed subscribers, once.
    FetchSubscribers,
    /// Deliver the newsletter to this address.
    Send { to: SubscriberEmail, content: NewsletterContent },
    /// Record that a confirmed subscriber is skipped: the stored email is
    /// invalid, for the cause given.
    Warn { cause: String },
    /// Save the response for the caller under the key.
    Save { user_id: UserId, key: IdempotencyKey, response: Response },
    /// Answer with this response.
    Respond(Response),
    /// Answer that the request is malformed.
    Reject(ValidationError),
    /// Answer that the command failed, and log the cause.
    Fail(String),
}

impl View for PublishAction {
    type V = ActionView;

    open spec fn view(&self) -> ActionView {
        match *self {
            PublishAction::Lookup { user_id, key } => ActionView::Lookup { user_id, key: key@ },
            PublishAction::FetchSubscribers => ActionView::FetchSubscribers,
            PublishAction::Send { to, content } => ActionView::Send { to: to@, content: content@ },
            PublishAction::Warn { cause } => ActionView::Warn { cause: cause@ },
            PublishAction::Save { user_id, key, response } => ActionView::Save {
                user_id,
                key: key@,
                response: response@,
            },
            PublishAction::Respond(response) => ActionView::Respond(response@),
            PublishAction::Reject(error) => ActionView::Reject(error),
            PublishAction::Fail(cause) => ActionView::Fail(cause@),
        }
    }
}

impl ActionView {
    /// Whether the action ends the command.
    pub open spec fn is_final(self) -> bool {
        self is Respond || self is Reject || self is Fail
    }
}

impl StateView {
    /// Whether the command is executing: the key is valid, nothing was
    /// saved under it, and the newsletter is on its way.
    pub open spec fn is_executing(self) -> bool {
        self is AwaitingSubscribers || self is Sending || self is Skipping || self is Saving
    }

    /// Whether the command has ended.
    pub open spec fn is_final(self) -> bool {
        self is Rejected || self is Replayed || self is Completed || self is Failed
    }
}

/// The status that a caller sees when the command ends with `action`: that
/// of the response, 400 for a rejected key, 500 for a failure. An action
/// that does not end the command has none.
pub open spec fn status_of(action: ActionView) -> Option<u16> {
    match action {
        ActionView::Respond(response) => Some(response.status),
        ActionView::Reject(_) => Some(BAD_REQUEST),
        ActionView::Fail(_) => Some(INTERNAL_SERVER_ERROR),
        _ => None,
    }
}

impl PublishAction {
    /// Whether the action ends the command.
    pub fn is_final(&self) -> (b: bool)
        ensures
            b == self@.is_final(),
    {
        match self {
            PublishAction::Respond(_) => true,
            PublishAction::Reject(_) => true,
            PublishAction::Fail(_) => true,
            _ => false,
        }
    }

    /// The status that a caller sees when the command ends with this
    /// action.
    pub fn status_code(&self) -> (code: Option<u16>)
        ensures
            code == status_of(self@),
            code is Some <==> self@.is_final(),
    {
        match self {
            PublishAction::Respond(response) => Some(response.status()),
            PublishAction::Reject(_) => Some(BAD_REQUEST),
            PublishAction::Fail(_) => Some(INTERNAL_SERVER_ERROR),
            _ => None,
        }
    }
}

/// Where a successful submission sends the caller.
pub open spec fn newsletters_page() -> Seq<char> {
    "/admin/newsletters"@
}

/// A failure in words: what was attempted, then the cause.
pub open spec fn failure(attempt: Seq<char>, cause: Seq<char>) -> Seq<char> {
    attempt + ": "@ + cause
}

/// What a failed lookup of the saved response is reported as.
pub open spec fn lookup_failed(cause: Seq<char>) -> Seq<char> {
    failure("Failed to look up the saved response"@, cause)
}

/// What a failed fetch of the confirmed subscribers is reported as.
pub open spec fn subscribers_failed(cause: Seq<char>) -> Seq<char> {
    failure("Failed to retrieve the confirmed subscribers"@, cause)
}

/// What a failed delivery to `to` is reported as.
pub open spec fn send_failed(to: Seq<char>, cause: Seq<char>) -> Seq<char> {
    failure("Failed to send newsletter to "@ + to, cause)
}

/// What a failed save of the response is reported as.
pub open spec fn save_failed(cause: Seq<char>) -> Seq<char> {
    failure("Failed to save the response"@, cause)
}

/// What an event that was not asked for is reported as.
pub open spec fn out_of_turn() -> Seq<char> {
    "The event does not answer the action that is out"@
}

/// What an event that does not answer the action that is out leads to:
/// the command fails, and nothing more is done.
pub open spec fn refuse() -> (StateView, ActionView) {
    (StateView::Failed, ActionView::Fail(out_of_turn()))
}

/// The step that takes up the recipient at position `next`: a delivery
/// where the stored email is valid, a warning where it is not, and the
/// save of the redirect once no recipient is left.
pub open spec fn take_up(
    submission: SubmissionView,
    recipients: Seq<Result<Seq<char>, Seq<char>>>,
    next: int,
) -> (StateView, ActionView) {
    if 0 <= next < recipients.len() {
        match recipients[next] {
            Ok(email) => (
                StateView::Sending { submission, recipients, cursor: next },
                ActionView::Send { to: email, content: submission.content },
            ),
            Err(cause) => (
                StateView::Skipping { submission, recipients, cursor: next },
                ActionView::Warn { cause },
            ),
        }
    } else {
        let response = see_other_view(newsletters_page());
        (
            StateView::Saving,
            ActionView::Save { user_id: submission.user_id, key: submission.key, response },
        )
    }
}

/// The next state and the action to perform, for a state and the event
/// that reached it.
pub open spec fn step(state: StateView, event: EventView) -> (StateView, ActionView) {
    match state {
        StateView::KeyReceived { user_id, form } => match event {
            EventView::Begin => match key_error(form.idempotency_key) {
                Some(error) => (StateView::Rejected, ActionView::Reject(error)),
                None => (
                    StateView::KeyValidated {
                        submission: SubmissionView {
                            user_id,
                            key: form.idempotency_key,
                            content: form.content,
                        },
                    },
                    ActionView::Lookup { user_id, key: form.idempotency_key },
                ),
            },
            _ => refuse(),
        },
        StateView::KeyValidated { submission } => match event {
            EventView::Lookup(Ok(Some(response))) => (
                StateView::Replayed,
                ActionView::Respond(response),
            ),
            EventView::Lookup(Ok(None)) => (
                StateView::AwaitingSubscribers { submission },
                ActionView::FetchSubscribers,
            ),
            EventView::Lookup(Err(cause)) => (
                StateView::Failed,
                ActionView::Fail(lookup_failed(cause)),
            ),
            _ => refuse(),
        },
        StateView::AwaitingSubscribers { submission } => match event {
            EventView::Subscribers(Ok(recipients)) => take_up(submission, recipients, 0),
            EventView::Subscribers(Err(cause)) => (
                StateView::Failed,
                ActionView::Fail(subscribers_failed(cause)),
            ),
            _ => refuse(),
        },
        StateView::Sending { submission, recipients, cursor } => {
            if 0 <= cursor < recipients.len() && recipients[cursor] is Ok {
                match event {
                    EventView::Sent(Ok(_)) => take_up(submission, recipients, cursor + 1),
                    EventView::Sent(Err(cause)) => (
                        StateView::Failed,
                        ActionView::Fail(send_failed(recipients[cursor]->Ok_0, cause)),
                    ),
                    _ => refuse(),
                }
            } else {
                refuse()
            }
        },
        StateView::Skipping { submission, recipients, cursor } => {
            if 0 <= cursor < recipients.len() {
                match event {
                    EventView::Warned => take_up(submission, recipients, cursor + 1),
                    _ => refuse(),
                }
            } else {
                refuse()
            }
        },
        StateView::Saving => match event {
            EventView::Saved(Ok(response)) => (StateView::Completed, ActionView::Respond(response)),
            EventView::Saved(Err(cause)) => (StateView::Failed, ActionView::Fail(save_failed(cause))),
            _ => refuse(),
        },
        _ => refuse(),
    }
}

fn describe(attempt: String, cause: &str) -> (text: String)
    ensures
        text@ == failure(attempt@, cause@),
{
    attempt.concat(": ").concat(cause)
}

fn refused() -> (r: (PublishState, PublishAction))
    ensures
        (r.0@, r.1@) == refuse(),
{
    (
        PublishState::Failed,
        PublishAction::Fail("The event does not answer the action that is out".to_owned()),
    )
}

fn next_recipient(
    submission: Submission,
    recipients: Vec<Result<ConfirmedSubscriber, String>>,
    next: usize,
) -> (r: (PublishState, PublishAction))
    ensures
        (r.0@, r.1@) == take_up(submission@, recipients_view(recipients@), next as int),
{
    if next < recipients.len() {
        assert(recipients_view(recipients@)[next as int] == recipient_view(recipients[next as int]));
        match &recipients[next] {
            Ok(subscriber) => {
                let to = subscriber.email.clone();
                let content = submission.content.clone();
                (
                    PublishState::Sending { submission, recipients, cursor: next },
                    PublishAction::Send { to, content },
                )
            },
            Err(cause) => {
                let cause = cause.clone();
                (
                    PublishState::Skipping { submission, recipients, cursor: next },
                    PublishAction::Warn { cause },
                )
            },
        }
    } else {
        let response = Response::see_other("/admin/newsletters");
        (
            PublishState::Saving,
            PublishAction::Save { user_id: submission.user_id, key: submission.key, response },
        )
    }
}

/// Advances the publish command by one event.
///
/// The key is validated before anything else; an invalid key ends the
/// command with `Reject`. A saved response is handed back verbatim, and
/// then nothing is fetched, sent or saved. Otherwise the confirmed
/// subscribers are taken up once, in order: a valid stored email gets one
/// delivery, an invalid one a warning, and the first failed delivery ends
/// the command before anything is saved. When no recipient is left the
/// redirect is saved, and what the save hands back is the answer. An
/// event that does not answer the action that is out ends the command
/// with `Fail`.
pub fn publish_newsletter(state: PublishState, event: PublishEvent) -> (r: (
    PublishState,
    PublishAction,
))
    ensures
        (r.0@, r.1@) == step(state@, event@),
{
    match state {
        PublishState::KeyReceived { user_id, form } => match event {
            PublishEvent::Begin => {
                let FormData { title, content_html, content_text, idempotency_key } = form;
                match IdempotencyKey::parse(idempotency_key) {
                    Err(error) => (PublishState::Rejected, PublishAction::Reject(error)),
                    Ok(key) => {
                        let lookup = key.clone();
                        let content = NewsletterContent { title, content_html, content_text };
                        (
                            PublishState::KeyValidated {
                                submission: Submission { user_id, key, content },
                            },
                            PublishAction::Lookup { user_id, key: lookup },
                        )
                    },
                }
            },
            _ => refused(),
        },
        PublishState::KeyValidated { submission } => match event {
            PublishEvent::Lookup(Ok(Some(response))) => (
                PublishState::Replayed,
                PublishAction::Respond(response),
            ),
            PublishEvent::Lookup(Ok(None)) => (
                PublishState::AwaitingSubscribers { submission },
                PublishAction::FetchSubscribers,
            ),
            PublishEvent::Lookup(Err(cause)) => (
                PublishState::Failed,
                PublishAction::Fail(
                    describe("Failed to look up the saved response".to_owned(), cause.as_str()),
                ),
            ),
            _ => refused(),
        },
        PublishState::AwaitingSubscribers { submission } => match event {
            PublishEvent::Subscribers(Ok(recipients)) => next_recipient(submission, recipients, 0),
            PublishEvent::Subscribers(Err(cause)) => (
                PublishState::Failed,
                PublishAction::Fail(
                    describe(
                        "Failed to retrieve the confirmed subscribers".to_owned(),
                        cause.as_str(),
                    ),
                ),
            ),
            _ => refused(),
        },
        PublishState::Sending { submission, recipients, cursor } => {
            if cursor >= recipients.len() {
                return refused();
            }
            assert(recipients_view(recipients@)[cursor as int] == recipient_view(
                recipients[cursor as int],
            ));
            match &recipients[cursor] {
                Err(_) => refused(),
                Ok(subscriber) => match event {
                    PublishEvent::Sent(Ok(_)) => next_recipient(submission, recipients, cursor + 1),
                    PublishEvent::Sent(Err(cause)) => {
                        let attempt = "Failed to send newsletter to ".to_owned().concat(
                            subscriber.email.as_ref(),
                        );
                        (
                            PublishState::Failed,
                            PublishAction::Fail(describe(attempt, cause.as_str())),
                        )
                    },
                    _ => refused(),
                },
            }
        },
        PublishState::Skipping { submission, recipients, cursor } => {
            if cursor >= recipients.len() {
                return refused();
            }
            match event {
                PublishEvent::Warned => next_recipient(submission, recipients, cursor + 1),
                _ => refused(),
            }
        },
        PublishState::Saving => match event {
            PublishEvent::Saved(Ok(response)) => (
                PublishState::Completed,
                PublishAction::Respond(response),
            ),
            PublishEvent::Saved(Err(cause)) => (
                PublishState::Failed,
                PublishAction::Fail(
                    describe("Failed to save the response".to_owned(), cause.as_str()),
                ),
            ),
            _ => refused(),
        },
        _ => refused(),
    }
}

/// The command has ended exactly when the action is one that ends it, and
/// a command that has ended stays ended: whatever event follows, nothing
/// is looked up, delivered or saved any more.
pub proof fn lemma_ends_are_final(state: StateView, event: EventView)
    ensures
        step(state, event).0.is_final() <==> step(state, event).1.is_final(),
        state.is_final() ==> step(state, event) == refuse(),
{
}

/// A response is asked to be saved only at the end of an execution, never
/// on the way to a rejection, a replay or a failure; and a delivery is
/// asked for only while executing.
pub proof fn lemma_saves_and_sends_only_while_executing(state: StateView, event: EventView)
    ensures
        step(state, event).1 is Save ==> step(state, event).0 is Saving && (state is Sending
            || state is Skipping || state is AwaitingSubscribers),
        step(state, event).1 is Send ==> step(state, event).0 is Sending && (state is Sending
            || state is Skipping || state is AwaitingSubscribers),
        step(state, event).1 is Save || step(state, event).1 is Send ==> step(
            state,
            event,
        ).0.is_executing(),
{
}

} // verus!
