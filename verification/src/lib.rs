//! Adapter around a desktop file-search engine's query session.
//!
//! The engine itself runs out of process and is reached through native
//! bindings that only exist on its home platform; this crate holds the part
//! worth verifying: the session configuration, the request-flag bitmask
//! reduction, the error classification, and the store that serializes
//! concurrent access to the one shared session. Engine reports enter the
//! library as plain values and every function that handles them is verified
//! for each value they may take.

pub mod error;
pub mod flags;
pub mod session;
pub mod shared;
