//! A client that owns its collaborators (a bridge and a strategy) and hands
//! them, read-only, to whichever command type the caller names, so that the
//! command can build itself from a manifest string.
pub mod commander;
pub mod matching;

pub use commander::{BuilderSlots, Client, ClientBuilder, Command, Commander};
pub use matching::{MatchCommand, PatternStrategy};
