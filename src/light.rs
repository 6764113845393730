//! The wrapping binding: generated types hold a validated
//! [`crate::value::Message`] and read and write its slots in place.
pub mod complex;
pub mod simple;
