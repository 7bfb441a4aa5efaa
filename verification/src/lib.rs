//! Twotter: the request handling of a small microblogging server and the
//! screen logic of its client.

pub mod client;
pub mod data;
pub mod database;
pub mod feed_entry;
pub mod framing;
pub mod session;
