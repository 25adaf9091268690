//! The per-document session history controller of a browsing context: it
//! tracks the document's navigation state, serializes and restores
//! application-supplied state payloads, and decides which messages are sent
//! to the out-of-process navigation coordinator that owns the joint session
//! history. Every decision is a function from plain values to plain values;
//! the host performs the sends, the blocking replies, the event dispatch and
//! the fragment scrolling that the returned values describe.

pub mod codec;
pub mod history;
pub mod messages;
pub mod urls;
pub mod value;
