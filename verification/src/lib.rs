//! Remapping of cross-container object references inside a loaded asset
//! bundle: given a set of remap rules, every dependency path, shader slot
//! and texture binding whose key matches a rule's source is rewritten to
//! the rule's target, and a report records the outcome at every site.

pub mod engine;
pub mod laws;
pub mod model;
