//! What a newsletter submission carries, and who receives it.

use crate::domain::subscriber_email::{invalid_email_message, is_valid_email};
use crate::domain::SubscriberEmail;
use crate::subscriptions::{confirmed_emails, SubscriptionStore};
use vstd::prelude::*;
use vstd::string::StringExecFns;

verus! {

/// What a newsletter is, for a reader: a title and two renderings.
pub struct ContentView {
    pub title: Seq<char>,
    pub content_html: Seq<char>,
    pub content_text: Seq<char>,
}

/// The newsletter to deliver.
#[derive(Debug)]
pub struct NewsletterContent {
    pub title: String,
    pub content_html: String,
    pub content_text: String,
}

impl View for NewsletterContent {
    type V = ContentView;

    open spec fn view(&self) -> ContentView {
        ContentView {
            title: self.title@,
            content_html: self.content_html@,
            content_text: self.content_text@,
        }
    }
}

impl Clone for NewsletterContent {
    fn clone(&self) -> (copy: Self)
        ensures
            copy@ == self@,
    {
        NewsletterContent {
            title: self.title.clone(),
            content_html: self.content_html.clone(),
            content_text: self.content_text.clone(),
        }
    }
}

/// What a submission is: the newsletter and the key text as received.
pub struct FormView {
    pub content: ContentView,
    pub idempotency_key: Seq<char>,
}

/// A submission as it arrives: the newsletter and the idempotency key,
/// not yet validated.
#[derive(Debug)]
pub struct FormData {
    pub title: String,
    pub content_html: String,
    pub content_text: String,
    pub idempotency_key: String,
}

impl View for FormData {
    type V = FormView;

    open spec fn view(&self) -> FormView {
        FormView {
            content: ContentView {
                title: self.title@,
                content_html: self.content_html@,
                content_text: self.content_text@,
            },
            idempotency_key: self.idempotency_key@,
        }
    }
}

/// What the caller is told once the newsletter is published.
pub open spec fn published_notice_text(title: Seq<char>) -> Seq<char> {
    "Your newsletter '"@ + title + "' has been published."@
}

/// The notice to show once the newsletter titled `title` is published,
/// whether it was published by this invocation or by an earlier one.
pub fn published_notice(title: &str) -> (notice: String)
    ensures
        notice@ == published_notice_text(title@),
{
    let notice = "Your newsletter '".to_owned().concat(title).concat("' has been published.");
    assert(notice@ =~= published_notice_text(title@));
    notice
}

/// A confirmed subscriber whose stored email passed validation again.
#[derive(Debug)]
pub struct ConfirmedSubscriber {
    pub email: SubscriberEmail,
}

/// A stored email after it was validated again: the address, or the words
/// of its rejection.
pub open spec fn revalidated_one(stored: Seq<char>) -> Result<Seq<char>, Seq<char>> {
    if is_valid_email(stored) {
        Ok(stored)
    } else {
        Err(invalid_email_message(stored))
    }
}

/// Each stored email validated again, in the same order.
pub open spec fn revalidated(stored: Seq<Seq<char>>) -> Seq<Result<Seq<char>, Seq<char>>> {
    stored.map_values(|s: Seq<char>| revalidated_one(s))
}

/// What one entry of a recipient list is.
pub open spec fn recipient_view(r: Result<ConfirmedSubscriber, String>) -> Result<
    Seq<char>,
    Seq<char>,
> {
    match r {
        Ok(subscriber) => Ok(subscriber.email@),
        Err(message) => Err(message@),
    }
}

/// What a recipient list is.
pub open spec fn recipients_view(recipients: Seq<Result<ConfirmedSubscriber, String>>) -> Seq<
    Result<Seq<char>, Seq<char>>,
> {
    recipients.map_values(|r: Result<ConfirmedSubscriber, String>| recipient_view(r))
}

/// Validates each stored email again. An entry that fails stays in its
/// place as the words of its rejection, so that the delivery can skip it
/// and go on.
pub fn revalidate(stored: Vec<String>) -> (recipients: Vec<Result<ConfirmedSubscriber, String>>)
    ensures
        recipients_view(recipients@) == revalidated(stored.deep_view()),
{
    let mut recipients: Vec<Result<ConfirmedSubscriber, String>> = Vec::new();
    let mut i: usize = 0;
    while i < stored.len()
        invariant
            i <= stored.len(),
            recipients.len() == i,
            forall|j: int|
                0 <= j < i ==> recipient_view(#[trigger] recipients[j]) == revalidated_one(stored[j]@),
        decreases stored.len() - i,
    {
        let entry = match SubscriberEmail::parse(stored[i].clone()) {
            Ok(email) => Ok(ConfirmedSubscriber { email }),
            Err(error) => Err(error),
        };
        recipients.push(entry);
        i += 1;
    }
    assert(recipients_view(recipients@) =~= revalidated(stored.deep_view()));
    recipients
}

/// The confirmed subscribers as they are now, each with its stored email
/// validated again, in the store's order.
pub fn get_confirmed_subscribers(store: &SubscriptionStore) -> (recipients: Vec<
    Result<ConfirmedSubscriber, String>,
>)
    ensures
        recipients_view(recipients@) == revalidated(confirmed_emails(store@.subscribers)),
{
    revalidate(store.confirmed_emails())
}

} // verus!
