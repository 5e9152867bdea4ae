//! Publishing a newsletter to the confirmed subscribers: a submission
//! that completed is replayed, not executed again.

pub mod content;
pub mod laws;
pub mod memory;
pub mod publish;

pub use content::{
    get_confirmed_subscribers, published_notice, revalidate, ConfirmedSubscriber, FormData,
    NewsletterContent,
};
pub use memory::{Backend, Delivered};
pub use publish::{publish_newsletter, PublishAction, PublishEvent, PublishState, Submission};
