//! Schemas: what is said of the entities and actions that policies speak of.

pub mod cedar_schema;
