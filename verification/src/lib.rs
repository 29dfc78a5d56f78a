//! The core of a terminal speed reader: the words of a text and the reader's
//! place in them, the actions that drive the reader, and the single ordered
//! loop that applies them.

pub mod action;
pub mod app;
pub mod handler;
pub mod home;
pub mod input;
pub mod key;
pub mod playback;
pub mod queue;
pub mod scan;
pub mod store;
pub mod text;
