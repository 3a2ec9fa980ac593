//! Entities and the values of their attributes, as they are written down.

pub mod json;
