//! Scope-gated authentication and event-attendance core.
//!
//! The crate models the three stateful collaborators of an event platform --
//! a user directory, a credential store with per-key expiry, and the event and
//! attendance records -- as in-memory structures, and verifies the logic that
//! runs against them: a token authority issuing scoped, expiring credentials,
//! the authorization pipeline that turns a credential into a typed principal,
//! and the attendance engine governing RSVP, geofenced check-in and lateness.

pub mod accounts;
pub mod attendance;
pub mod authz;
pub mod events;
pub mod otp;
pub mod credstore;
pub mod scope;
pub mod token;
pub mod users;
