//! A verified core for a smart-contract compilation service.
//!
//! The service compiles a contract source text with an externally
//! installed toolchain: it scaffolds a scratch project on disk, writes
//! the source into it, runs the external build command, harvests the
//! generated artifacts (or extracts the relevant part of the compiler's
//! error output), and always deletes the scratch project again.
//!
//! All decisions of that workflow live here as verified code; the
//! filesystem and process work is left to an unverified driver that
//! feeds plain values back in as events.

pub mod errortext;
pub mod hexcodec;
pub mod machine;
pub mod paths;
pub mod response;
