//! Core logic of a small music player: scanning a directory listing for
//! playable tracks, deriving display metadata from embedded tags, and a
//! transport coordinator that owns selection, elapsed-time accrual, volume
//! and the play/pause/stop state machine.
//!
//! All time is measured in whole milliseconds and volume in per-mille of
//! full scale, so every rule here is stated and proved over integers. The
//! surrounding application converts to and from the clock and the audio
//! engine's own units at the boundary.

pub mod metadata;
pub mod scanner;
pub mod transport;
