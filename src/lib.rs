//! Small, verified building blocks that show how core language mechanics
//! behave: bindings, tuples, blocks, structs, patterns, traits, generics,
//! enums and references. Each function returns the values it builds so that
//! callers (and the contracts) can observe them.
pub mod bindings;
pub mod blocks;
pub mod generic_items;
pub mod lifetimes;
pub mod numbers;
pub mod options;
pub mod records;
pub mod tuples;
