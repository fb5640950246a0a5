//! Incremental construction of a fixed-capacity array from a sequence that
//! may run out early.
//!
//! [`builder::ArrayBuilder`] owns up to `N` elements and hands them out only
//! once all `N` have been appended; [`fill::next_array`] drives a builder from
//! any iterator, returning the first `N` items in order or nothing if the
//! iterator was exhausted first.

pub mod builder;
pub mod fill;
