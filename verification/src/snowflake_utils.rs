//! Shortcut functions for identifier generation, re-exported under a
//! prefix so that call sites avoid name clashes with their own items.

pub use crate::snowflake::{generate_id, generate_ids, generate_string_id, parse_id,
    parse_string_id};
