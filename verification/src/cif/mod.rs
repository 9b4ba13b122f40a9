//! The definition container: its byte layout, the grammar of its lines, and
//! the typed records that its sections are built into.

pub mod text;
pub mod section;
pub mod value;
pub mod fields;
pub mod definitions;
pub mod landscape;
pub mod palette;
pub mod pattern;
pub mod transition;
pub mod texts;
pub mod parsed;
pub mod container;
