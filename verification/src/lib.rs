//! The decision core of an input-method server: it turns key events and
//! composition results into the instructions a client must be sent.

pub mod action;
pub mod context;
pub mod encode;
pub mod modifiers;
pub mod preedit;
pub mod registry;
pub mod result;
pub mod server;
