//! Idempotent newsletter publishing.
//!
//! A submission that completed is not executed again: a retry with the
//! same idempotency key gets the saved response back, byte for byte, and
//! nothing is sent. A submission that failed has saved nothing and may be
//! retried; whoever was reached before the failure is then reached again.
//! The crate holds the pieces of that behaviour, each with a contract that
//! Verus proves:
//!
//! - [`domain`]: subscriber emails and names, validated;
//! - [`idempotency`]: the idempotency key, the HTTP-shaped response, and
//!   the store of saved responses with its replay;
//! - [`subscriptions`]: the subscribers, their confirmation tokens, and
//!   the confirmation of a subscription;
//! - [`newsletters`]: the publish command as a state machine, what holds
//!   of its runs, and a backend in memory that runs it;
//! - [`authentication`], [`login`], [`password`], [`flash`]: what the
//!   pages around the command decide and show;
//! - [`unicode`]: what is taken from Unicode without proof.
//!
//! Nothing here touches a network, a disk or a clock. Whoever drives the
//! state machines performs the actions they ask for and hands back what
//! came of them.

pub mod authentication;
pub mod domain;
pub mod flash;
pub mod idempotency;
pub mod login;
pub mod newsletters;
pub mod password;
pub mod subscriptions;
pub mod unicode;
