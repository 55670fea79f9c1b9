//! Keeps a messaging status in step with the music that is playing.
//!
//! Each check reads the player, the shown status and, when it matters, the user's
//! presence, and decides on at most one write: announce the track, clear a status
//! that this library set, or leave the status as it is.
use vstd::prelude::*;

pub mod config;
pub mod reconcile;
pub mod slack;
pub mod spotify;

verus! {

} // verus!
