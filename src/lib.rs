//! A generic, positional representation of protocol messages, and two
//! bindings of typed messages onto it: an owning one that copies fields in
//! and out, and a wrapping one that keeps the generic form and reads it in
//! place.
pub mod descriptor;
pub mod value;
pub mod error;
pub mod schema;
pub mod heavy;
pub mod light;
pub mod reflect;
