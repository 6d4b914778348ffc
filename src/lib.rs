//! A bounded worker-pool connection dispatcher and its helpers.
//!
//! The library holds the decisions of the pool (which worker runs which job,
//! when a worker stops, what a fault does to a worker), the framing of the two
//! responses that the HTTP responder sends, and the record logic of the task
//! journal. Threads, sockets and files stay with the caller.
pub mod dispatcher;
pub mod journal;
pub mod laws;
pub mod response;
