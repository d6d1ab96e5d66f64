//! Core of a chat bot that files incoming messages as pages of a Notion
//! database.
//!
//! A user registers an integration token and a database id once, in a short
//! dialogue. From then on each message becomes a page: its first line is the
//! title, its first link the URL, its `#` and `@` words the tags, and its
//! photo or image document, uploaded to an image host, the image.
//!
//! Nothing here performs I/O. The chat transport, the credential store, the
//! image host and the target store are the caller's: functions take what
//! those gave as plain values and return what to send, store or request
//! next.
//!
//! - [`bot`] routes an incoming message.
//! - [`dialogue`] is the onboarding conversation.
//! - [`message`] leads a message of an onboarded user to its page.
//! - [`extract`] reads title, link and tags off a text.
//! - [`attachment`] picks the attachments to upload.
//! - [`img_push`] reads the image host's answers.
//! - [`notion`] models the target store, checks a database's fields and
//!   builds the page to create.
//! - [`db`] holds the credential record and the model of its store.
//! - [`constants`] holds the texts sent; [`text`] the string helpers.

pub mod attachment;
pub mod bot;
pub mod constants;
pub mod db;
pub mod dialogue;
pub mod extract;
pub mod img_push;
pub mod message;
pub mod notion;
pub mod text;
