//! A minimal HTTP read service core: route a request by method and path,
//! look a document up by its identifier, and answer with caching headers.
//!
//! The transport (an HTTP server) and the document store (a pooled
//! relational database) live outside this crate; the core here decides,
//! for every request, what to look up and what response to send.
//!
//! Policy: `GET` is served, `HEAD` is accepted and answered `204 No
//! Content` with no body, and every other method is refused with `405`.

pub mod request_handler;
pub mod response;
