//! Comparators that order the keys of a LevelDB database: a typed key order and its
//! name, with the raw-byte comparison that the engine's callbacks perform.
pub mod comparator;
pub mod key;
