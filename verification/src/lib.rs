//! A verified resource manager: a collection of uniquely identified records
//! with create, read, filtered read, partial update (merge) and delete
//! operations. Identifier uniqueness and the merge semantics are stated as
//! contracts and proved.

pub mod ascii;
pub mod developer;
pub mod filtering;
pub mod handlers;
pub mod manager;
pub mod models;
