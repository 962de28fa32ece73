//! The in-process core of a live-membership broadcast service.
//!
//! Clients hold long-lived subscriptions. The service keeps the set of live
//! subscribers and, whenever that set changes, offers the new subscriber count
//! to every live subscriber over that subscriber's own bounded channel.
//!
//! Everything here is sequential: the caller decides how exclusive access to a
//! [`MySubscriptionCounter`] is obtained (typically a reader/writer lock), and
//! runs each operation under one acquisition of it. Joining and leaving take
//! `&mut self`, so minting an identity, changing the registry and announcing
//! the new count are one indivisible step however many callers contend.
//!
//! - [`membership`]: the membership as a state machine, and its laws.
//! - [`registry`]: the live subscriptions, each under its identity.
//! - [`broadcast`]: offering the count to every subscriber without waiting.
//! - [`subscription`]: joining, and leaving when a stream is let go.
//! - [`drop_stream`]: the outbound stream and its one-shot release signal.
//! - [`channel`]: what is taken for granted of the channels underneath.
//! - [`greeter`]: the unary greeting service.

pub mod broadcast;
pub mod channel;
pub mod drop_stream;
pub mod greeter;
pub mod membership;
pub mod registry;
pub mod subscription;

pub use drop_stream::DropStream;
pub use greeter::MyGreeter;
pub use subscription::MySubscriptionCounter;
