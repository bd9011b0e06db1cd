//! Request handling for a small users service, free of I/O.
//!
//! Two operations are served over HTTP: listing every user held in a
//! key-value table, and creating one. The functions here take what the
//! platform and the table hand over as plain values, and give back the
//! response to send, or the write to make first.

pub mod get_function;
pub mod http;
pub mod item;
pub mod json;
pub mod post_function;
pub mod record;
pub mod store;
