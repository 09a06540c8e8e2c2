//! Finds disposable files among directory listings, flags size-collision
//! duplicates, classifies deletion results and drives a recurring clean-up
//! schedule. Every rule is stated as a contract over plain values; the caller
//! walks the file system and performs the deletions.

pub mod model;
pub mod text;
pub mod filter;
pub mod scan;
pub mod duplicates;
pub mod eraser;
pub mod clean;
pub mod defaults;
pub mod scheduler;
