//! Unix permission bits: the read/write/execute triple of each subject,
//! decoding them from a mode integer, building them from symbolic tokens,
//! and rendering them as table rows, a unix-style string or octal digits.
pub mod compute;
pub mod error;
pub mod laws;
pub mod record;
pub mod triple;
