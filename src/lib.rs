//! Adaptive file reading: page-aligned buffer sizing, read strategies that
//! pick hints by file size, a reader state machine with a lazily allocated
//! scratch buffer, and page-cache residency accounting.
use vstd::prelude::*;

pub mod benchmark;
pub mod cursor;
pub mod errors;
pub mod fastfile;
pub mod os;
pub mod strategy;

verus! {

} // verus!
