//! Request/response bridge between network connections and a single owner
//! thread: a length-prefixed wire codec, a correlation registry that matches
//! in-flight requests to their eventual responses, a per-connection state
//! machine, and the single-consumer dispatch step that executes registered
//! handlers exclusively on the owner thread.

pub mod codec;
pub mod protocol;
pub mod registry;
pub mod api;
pub mod connection;
pub mod dispatch;
