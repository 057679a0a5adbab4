//! HTML report pages of a competitive game's players: profile cards and
//! head-to-head match reports, rendered from the game service's data by
//! ordered placeholder substitution into opaque templates.
//!
//! - `template`: the substitution engine.
//! - `format`: numbers, fixed-point values, clocks and elapsed time as text.
//! - `replay`: from a finished match to a report seen from one player, and
//!   what the replay cache decides.
//! - `tetra`: the match report page.
//! - `teto`: the profile card.
//! - `text`, `time`: case mapping, joining, percent-decoding and instants,
//!   done by std, itertools, urlencoding and chrono.
use vstd::prelude::*;

pub mod format;
pub mod replay;
pub mod template;
pub mod teto;
pub mod tetra;
pub mod text;
pub mod time;

verus! {

} // verus!
