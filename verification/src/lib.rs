//! Session-gated view controllers.
//!
//! Every screen of the application is a reducer: it takes the event that
//! arrived and answers with its next state and, at most, one action for the
//! event loop to perform. Nothing here performs a request or touches the
//! page; the loop that owns the controllers does.
//!
//! - [`store`]: the session and those who listen for its changes.
//! - [`fetch`]: the numbering of requests, by which late responses are told
//!   from current ones.
//! - [`cursor`]: the window of a paged listing.
//! - [`entity`]: what the listings show.
//! - [`link`], [`content`], [`sign_up`]: the three screens.

pub mod content;
pub mod cursor;
pub mod entity;
pub mod fetch;
pub mod link;
pub mod sign_up;
pub mod store;
