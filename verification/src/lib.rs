//! A verified protocol engine for a server-side OAuth 2.0 authorization-code
//! mediator against Google, with Firebase-brokered token lifecycle management.
//!
//! The crate models the redirect-based authorization dance as plain data and
//! verified decision functions: parameter normalization, the session cookie
//! codec binding the two HTTP requests of the flow, authorization-URL
//! construction, the callback state machine (CSRF validation, code exchange,
//! identity verification, conditional persistence), and the refresh/revoke
//! token lifecycle operations over a user token store.

pub mod authorize;
pub mod error;
pub mod exchange;
pub mod introspect;
pub mod params;
pub mod scope;
pub mod session;
pub mod state;
pub mod store;
pub mod text;
pub mod token;
