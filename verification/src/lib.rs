//! A themed profile-card gallery built on a Model -> Update -> View -> Command
//! runtime: an application state, a closed set of messages, a pure state
//! transition (`update`), a pure renderer into a tree of view nodes (`view`),
//! and a dispatch loop that serializes every state mutation.

pub mod application;
pub mod msg;
pub mod person;
pub mod runtime;
pub mod theme;
pub mod view;
