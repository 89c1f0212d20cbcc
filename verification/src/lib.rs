//! Decision logic of the Lore Seeker Desktop launcher: which GitHub requests to
//! make, whether the running build is the latest release, which release asset
//! belongs to the local platform, and how the installer and the self-update
//! proceed from one outside event to the next.
//!
//! Nothing in this crate touches the network, the file system or the screen.
//! Callers perform those actions and report back what happened.

pub mod github;
pub mod pick;
pub mod platform;
pub mod release;
pub mod search;
pub mod text;
pub mod timer;
pub mod trice;
pub mod update;
pub mod util;
