//! The state engine of a terminal chat client: the text buffer in which a
//! message is composed, the store of rooms and message logs, the loop that
//! merges server events, ticks and shutdown signals into that store, and the
//! pages that turn key presses into actions.

pub mod action;
pub mod app;
pub mod component;
pub mod input_box;
pub mod key;
pub mod main_loop;
pub mod pages;
pub mod protocol;
pub mod state;
pub mod termination;
pub mod text;
