//! Registering people for the sessions of a sport course: reading the
//! provider's listing, replaying its registration form, and deciding whom to
//! tell of a session and what to do with their answers.
//!
//! The library decides and describes; it sends nothing and stores nothing.
//! Requests, messages and writes to the stores come out of it as values for
//! the surrounding program to carry out.

pub mod cli;
pub mod course;
pub mod decimal;
pub mod effect;
pub mod error;
pub mod form;
pub mod gender;
pub mod handlers;
pub mod keyboards;
pub mod message_effect;
pub mod model;
pub mod participant;
pub mod scheduler;
pub mod schema;
pub mod signup;
pub mod status;
pub mod text;
pub mod text_messages;
pub mod urlencode;
