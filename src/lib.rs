//! The protocol core of an inbound SMTP server: command parsing, the
//! per-connection state machine, reply formatting, recovery of policy
//! rejections from nested errors, and the per-recipient fan-out of an accepted
//! message.

pub mod command;
pub mod fanout;
pub mod reject;
pub mod reply;
pub mod session;

pub use reject::RejectError;
