//! The owning binding: generated types hold their fields natively and copy
//! them into and out of a [`crate::value::Message`].
pub mod complex;
pub mod simple;
