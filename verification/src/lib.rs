//! A link-state watcher for a single wireless network interface.
//!
//! A background subscriber (driven by the embedding application) feeds
//! property-change signals from the system message bus into a shared
//! [`state::LinkState`] record; an on-demand renderer turns a snapshot of
//! that record into display text and a severity level, resolving the
//! connected network's human-readable name when one is available.

pub mod block;
pub mod render;
pub mod shared;
pub mod state;
