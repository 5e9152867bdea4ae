//! Validated value types for subscriber data.

pub mod subscriber_email;
pub mod subscriber_name;

pub use subscriber_email::SubscriberEmail;
pub use subscriber_name::SubscriberName;
