//! A fixed-size worker thread pool.
//!
//! The pool owns a set of long-lived worker threads that share one
//! lock-guarded, first-in-first-out work queue.  Callers submit jobs
//! (one-shot units of work) and shut the pool down with an orderly
//! broadcast-then-join protocol that drains every queued job before
//! any worker exits.

mod http;
mod message;
mod pool;
mod worker;

pub use http::build_response;
pub use http::filename_for;
pub use http::not_found_status_line_vec;
pub use http::ok_status_line_vec;
pub use http::route;
pub use http::status_line_for;
pub use http::Route;
pub use message::broadcast_terminate;
pub use message::dequeue;
pub use message::enqueue;
pub use message::Job;
pub use message::Message;
pub use pool::ThreadPool;
