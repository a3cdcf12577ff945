//! The decisions of an interactive messenger client: what every menu asks, which request every
//! answer leads to, what is printed, and how the chat list and the session change.
//!
//! The library performs no input or output. [`app::App`] says what to do next with
//! [`app::App::request`]; the program around it does so and hands the result to
//! [`app::App::step`].

pub mod app;
pub mod auth;
pub mod chats;
pub mod config;
pub mod console;
pub mod flow;
pub mod journeys;
pub mod laws;
pub mod model;
pub mod sessions;
pub mod text;
pub mod wire;
