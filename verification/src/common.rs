//! Value types shared with the callers of the translation.

pub mod table_reference;
