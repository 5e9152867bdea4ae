//! Changing the password of a caller who is logged in, one decision per
//! event.

use crate::authentication::{AuthError, AuthErrorView, Credentials, CredentialsView};
use crate::idempotency::persistence::UserId;
use crate::idempotency::response::{see_other_view, Response, ResponseView};
use crate::unicode::{count_graphemes, grapheme_count};
use vstd::prelude::*;

verus! {

/// The smallest number of grapheme clusters a new password may hold.
pub const MIN_PASSWORD_GRAPHEMES: usize = 12;

/// The largest number of grapheme clusters a new password may hold.
pub const MAX_PASSWORD_GRAPHEMES: usize = 129;

/// The rule for the length of a new password, given the number of its
/// grapheme clusters.
pub open spec fn password_length_rule(graphemes: nat) -> bool {
    MIN_PASSWORD_GRAPHEMES <= graphemes <= MAX_PASSWORD_GRAPHEMES
}

/// Decides the rule for the length of a new password whose grapheme
/// clusters have been counted.
pub fn check_password_length(graphemes: usize) -> (ok: bool)
    ensures
        ok == password_length_rule(graphemes as nat),
{
    !(graphemes < MIN_PASSWORD_GRAPHEMES || graphemes > MAX_PASSWORD_GRAPHEMES)
}

/// What a request to change the password is.
pub struct FormView {
    pub current_password: Seq<char>,
    pub new_password: Seq<char>,
    pub new_password_check: Seq<char>,
}

/// A request to change the password: the current one, and the new one
/// twice.
#[derive(Debug)]
pub struct FormData {
    pub current_password: String,
    pub new_password: String,
    pub new_password_check: String,
}

impl View for FormData {
    type V = FormView;

    open spec fn view(&self) -> FormView {
        FormView {
            current_password: self.current_password@,
            new_password: self.new_password@,
            new_password_check: self.new_password_check@,
        }
    }
}

/// What a state of the change is.
pub enum StateView {
    Received { user_id: UserId, form: FormView },
    AwaitingUsername { user_id: UserId, form: FormView },
    AwaitingValidation { user_id: UserId, new_password: Seq<char> },
    AwaitingChange,
    Finished,
}

/// Where a change of password stands.
#[derive(Debug)]
pub enum ChangeState {
    /// The request has arrived.
    Received { user_id: UserId, form: FormData },
    /// The two new passwords agree; the lookup of the username is out.
    AwaitingUsername { user_id: UserId, form: FormData },
    /// The check of the current password is out.
    AwaitingValidation { user_id: UserId, new_password: String },
    /// The new password is acceptable; its storing is out.
    AwaitingChange,
    /// The request was answered.
    Finished,
}

impl View for ChangeState {
    type V = StateView;

    open spec fn view(&self) -> StateView {
        match *self {
            ChangeState::Received { user_id, form } => StateView::Received { user_id, form: form@ },
            ChangeState::AwaitingUsername { user_id, form } => StateView::AwaitingUsername {
                user_id,
                form: form@,
            },
            ChangeState::AwaitingValidation { user_id, new_password } => StateView::AwaitingValidation {
                user_id,
                new_password: new_password@,
            },
            ChangeState::AwaitingChange => StateView::AwaitingChange,
            ChangeState::Finished => StateView::Finished,
        }
    }
}

/// What an event is.
pub enum EventView {
    Begin,
    Username(Result<Seq<char>, Seq<char>>),
    Validated(Result<UserId, AuthErrorView>),
    Changed(Result<(), Seq<char>>),
}

/// What came of the action that is out.
#[derive(Debug)]
pub enum ChangeEvent {
    /// The change is started.
    Begin,
    /// The username of the caller, or why it could not be had.
    Username(Result<String, String>),
    /// The current password was checked.
    Validated(Result<UserId, AuthError>),
    /// The new password was stored, or could not be.
    Changed(Result<(), String>),
}

impl View for ChangeEvent {
    type V = EventView;

    open spec fn view(&self) -> EventView {
        match *self {
            ChangeEvent::Begin => EventView::Begin,
            ChangeEvent::Username(Ok(name)) => EventView::Username(Ok(name@)),
            ChangeEvent::Username(Err(cause)) => EventView::Username(Err(cause@)),
            ChangeEvent::Validated(Ok(user_id)) => EventView::Validated(Ok(user_id)),
            ChangeEvent::Validated(Err(error)) => EventView::Validated(Err(error@)),
            ChangeEvent::Changed(Ok(_)) => EventView::Changed(Ok(())),
            ChangeEvent::Changed(Err(cause)) => EventView::Changed(Err(cause@)),
        }
    }
}

/// What an action is.
pub enum ActionView {
    GetUsername { user_id: UserId },
    Validate { credentials: CredentialsView },
    Change { user_id: UserId, new_password: Seq<char> },
    Redirect { flash: Seq<char>, response: ResponseView },
    Fail(Seq<char>),
}

/// What the driver is to do next. `Redirect` and `Fail` end the change.
#[derive(Debug)]
pub enum ChangeAction {
    /// Look up the username of the caller.
    GetUsername { user_id: UserId },
    /// Check the current password against the username.
    Validate { credentials: Credentials },
    /// Store the new password for the caller.
    Change { user_id: UserId, new_password: String },
    /// Show `flash` once and answer with the redirect.
    Redirect { flash: String, response: Response },
    /// Answer that the change failed, and log the cause.
    Fail(String),
}

impl View for ChangeAction {
    type V = ActionView;

    open spec fn view(&self) -> ActionView {
        match *self {
            ChangeAction::GetUsername { user_id } => ActionView::GetUsername { user_id },
            ChangeAction::Validate { credentials } => ActionView::Validate {
                credentials: credentials@,
            },
            ChangeAction::Change { user_id, new_password } => ActionView::Change {
                user_id,
                new_password: new_password@,
            },
            ChangeAction::Redirect { flash, response } => ActionView::Redirect {
                flash: flash@,
                response: response@,
            },
            ChangeAction::Fail(cause) => ActionView::Fail(cause@),
        }
    }
}

/// Where every answer to a change of password leads.
pub open spec fn password_page() -> Seq<char> {
    "/admin/password"@
}

/// What is shown when the two new passwords differ.
pub open spec fn passwords_differ() -> Seq<char> {
    "You entered two different new passwords - the field values must match."@
}

/// What is shown when the current password is wrong.
pub open spec fn current_password_incorrect() -> Seq<char> {
    "The current password is incorrect."@
}

/// What is shown when the new password is too short or too long.
pub open spec fn password_length_out_of_range() -> Seq<char> {
    "The new password should be between 12 and 129 characters."@
}

/// What is shown when the password was changed.
pub open spec fn password_changed() -> Seq<char> {
    "Your password has been changed."@
}

/// What an event that was not asked for is reported as.
pub open spec fn out_of_turn() -> Seq<char> {
    "The event does not answer the action that is out"@
}

/// The end of a change with a text to show.
pub open spec fn redirect(flash: Seq<char>) -> (StateView, ActionView) {
    (StateView::Finished, ActionView::Redirect { flash, response: see_other_view(password_page()) })
}

/// The end of a change with a failure.
pub open spec fn fail(cause: Seq<char>) -> (StateView, ActionView) {
    (StateView::Finished, ActionView::Fail(cause))
}

/// The next state and the action to perform, for a state and the event
/// that reached it.
///
/// The two new passwords are compared first. Then the current password is
/// checked against the caller's username. Only then is the length of the
/// new password judged, and the password stored.
pub open spec fn step(state: StateView, event: EventView) -> (StateView, ActionView) {
    match state {
        StateView::Received { user_id, form } => match event {
            EventView::Begin => if form.new_password != form.new_password_check {
                redirect(passwords_differ())
            } else {
                (
                    StateView::AwaitingUsername { user_id, form },
                    ActionView::GetUsername { user_id },
                )
            },
            _ => fail(out_of_turn()),
        },
        StateView::AwaitingUsername { user_id, form } => match event {
            EventView::Username(Ok(username)) => (
                StateView::AwaitingValidation { user_id, new_password: form.new_password },
                ActionView::Validate {
                    credentials: CredentialsView { username, password: form.current_password },
                },
            ),
            EventView::Username(Err(cause)) => fail(cause),
            _ => fail(out_of_turn()),
        },
        StateView::AwaitingValidation { user_id, new_password } => match event {
            EventView::Validated(Ok(_)) => if password_length_rule(grapheme_count(new_password)) {
                (StateView::AwaitingChange, ActionView::Change { user_id, new_password })
            } else {
                redirect(password_length_out_of_range())
            },
            EventView::Validated(Err(AuthErrorView::InvalidCredentials(_))) => redirect(
                current_password_incorrect(),
            ),
            EventView::Validated(Err(AuthErrorView::UnexpectedError(cause))) => fail(cause),
            _ => fail(out_of_turn()),
        },
        StateView::AwaitingChange => match event {
            EventView::Changed(Ok(_)) => redirect(password_changed()),
            EventView::Changed(Err(cause)) => fail(cause),
            _ => fail(out_of_turn()),
        },
        StateView::Finished => fail(out_of_turn()),
    }
}

fn redirected(flash: &str) -> (r: (ChangeState, ChangeAction))
    ensures
        (r.0@, r.1@) == redirect(flash@),
{
    (
        ChangeState::Finished,
        ChangeAction::Redirect {
            flash: flash.to_owned(),
            response: Response::see_other("/admin/password"),
        },
    )
}

fn failed(cause: String) -> (r: (ChangeState, ChangeAction))
    ensures
        (r.0@, r.1@) == fail(cause@),
{
    (ChangeState::Finished, ChangeAction::Fail(cause))
}

fn refused() -> (r: (ChangeState, ChangeAction))
    ensures
        (r.0@, r.1@) == fail(out_of_turn()),
{
    failed("The event does not answer the action that is out".to_owned())
}

/// Advances a change of password by one event.
pub fn change_password(state: ChangeState, event: ChangeEvent) -> (r: (ChangeState, ChangeAction))
    ensures
        (r.0@, r.1@) == step(state@, event@),
{
    match state {
        ChangeState::Received { user_id, form } => match event {
            ChangeEvent::Begin => {
                if form.new_password != form.new_password_check {
                    redirected(
                        "You entered two different new passwords - the field values must match.",
                    )
                } else {
                    (
                        ChangeState::AwaitingUsername { user_id, form },
                        ChangeAction::GetUsername { user_id },
                    )
                }
            },
            _ => refused(),
        },
        ChangeState::AwaitingUsername { user_id, form } => match event {
            ChangeEvent::Username(Ok(username)) => {
                let FormData { current_password, new_password, new_password_check } = form;
                (
                    ChangeState::AwaitingValidation { user_id, new_password },
                    ChangeAction::Validate {
                        credentials: Credentials { username, password: current_password },
                    },
                )
            },
            ChangeEvent::Username(Err(cause)) => failed(cause),
            _ => refused(),
        },
        ChangeState::AwaitingValidation { user_id, new_password } => match event {
            ChangeEvent::Validated(Ok(_)) => {
                let password_length = count_graphemes(new_password.as_str());
                if check_password_length(password_length) {
                    (ChangeState::AwaitingChange, ChangeAction::Change { user_id, new_password })
                } else {
                    redirected("The new password should be between 12 and 129 characters.")
                }
            },
            ChangeEvent::Validated(Err(AuthError::InvalidCredentials(_))) => redirected(
                "The current password is incorrect.",
            ),
            ChangeEvent::Validated(Err(AuthError::UnexpectedError(cause))) => failed(cause),
            _ => refused(),
        },
        ChangeState::AwaitingChange => match event {
            ChangeEvent::Changed(Ok(_)) => redirected("Your password has been changed."),
            ChangeEvent::Changed(Err(cause)) => failed(cause),
            _ => refused(),
        },
        ChangeState::Finished => refused(),
    }
}

/// A new password is asked to be stored only once the current password
/// was accepted, and only if it is of acceptable length; the password
/// stored is the one that was submitted.
pub proof fn lemma_stored_only_after_validation(state: StateView, event: EventView)
    requires
        step(state, event).1 is Change,
    ensures
        state is AwaitingValidation,
        event matches EventView::Validated(Ok(_)),
        password_length_rule(grapheme_count(state->AwaitingValidation_new_password)),
        step(state, event).1->Change_new_password == state->AwaitingValidation_new_password,
        step(state, event).1->Change_user_id == state->AwaitingValidation_user_id,
{
}

/// The current password is checked only for a request whose two new
/// passwords agree.
pub proof fn lemma_validated_only_if_passwords_agree(user_id: UserId, form: FormView)
    ensures
        step(StateView::Received { user_id, form }, EventView::Begin).1 is GetUsername
            <==> form.new_password == form.new_password_check,
{
}

} // verus!
