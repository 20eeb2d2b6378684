//! Merges the light and interior-cell records of an ordered list of game
//! plugins into one override plugin: records are deduplicated by
//! case-insensitive identifier across plugins (highest priority first),
//! light colors and radii are adjusted according to a tunable configuration,
//! interior cells keep only their atmosphere block, and the result carries
//! dependency metadata for every plugin that contributed.

pub mod ids;
pub mod laws;
pub mod merge;
pub mod output;
pub mod paths;
pub mod records;
pub mod settings;
pub mod transform;
