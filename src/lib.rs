//! Asset catalog, image memory accounting and application phases of a small
//! RAM-usage demo built on a game engine.

pub mod catalog;
pub mod names;
pub mod ordering;
pub mod pack;
pub mod phase;
pub mod report;
