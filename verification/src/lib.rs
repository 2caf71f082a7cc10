//! The results of DNS lookups, and the course that a lookup takes.
mod shared;

pub mod error;
pub mod handle;
pub mod lookup;
pub mod lookup_future;
pub mod op;
pub mod record_lookup;
pub mod rr;
pub mod select;
pub mod srv_lookup;
pub mod time;
pub mod walk;
