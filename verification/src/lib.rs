//! Per-guild voice session coordination for a jam-playing voice bot.
//!
//! The crate models the state a voice bot keeps for each guild — the
//! playback queue, the current track, the stored volume and the
//! play/pause state machine — together with the registry that maps a
//! guild to its session, the catalog of previously played tracks that
//! feeds the random "jam" feature, and the classification of raw play
//! requests.  Every mutating operation returns the engine actions the
//! caller must perform, so the decisions are verified here while the
//! network work stays outside.

pub mod catalog;
pub mod commands;
pub mod engine;
pub mod errors;
pub mod records;
pub mod registry;
pub mod resolver;
pub mod session;
pub mod text;
pub mod track;
