//! A fixed-size worker pool with a verified dispatch protocol, together with a
//! handful of small, independently usable utilities.

pub mod collections;
pub mod enums;
pub mod functional;
pub mod generics;
pub mod guessing_game;
pub mod limit_tracker;
pub mod minigrep;
pub mod oop;
pub mod pool;
pub mod rectangles;
pub mod restaurant;
pub mod server;
pub mod smart_pointers;
pub mod traits;
