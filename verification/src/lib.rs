//! Vector shape outlines for a multimedia player: the enclosing rectangle of a
//! shape's edge records, and their decomposition into style-grouped, contiguous
//! paths that a tessellator can fill or stroke.
//!
//! Beside the outlines stand two smaller parts of the player: the settings of
//! the stage as scripts read and write them, and the descriptions of the
//! samplers that bitmaps are drawn with.

pub mod geometry;
pub mod records;
pub mod bounds;
pub mod styles;
pub mod path;
pub mod active_paths;
pub mod draw;
pub mod text;
pub mod color;
pub mod stage;
pub mod player;
pub mod stage_natives;
pub mod bitmaps;
