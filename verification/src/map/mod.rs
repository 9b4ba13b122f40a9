//! The map container: a sequence of tagged sections, each decoded by the
//! codec that its tag stands for.

pub mod tags;
pub mod container;
pub mod data;
