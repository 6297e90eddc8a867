//! A type-erased heterogeneous value store with runtime-checked typed access,
//! together with a collection of small verified utility types.

pub mod erased;
pub mod collection;
pub mod registry;
pub mod bits;
pub mod sequences;
pub mod grid;
pub mod money;
pub mod numbers;
pub mod render;
pub mod text;
pub mod convert;
pub mod records;
pub mod identity;
pub mod sized;
pub mod color;
pub mod bytes;
pub mod smart;
pub mod borrowing;
pub mod closures;
pub mod errors;
pub mod streams;
pub mod shared;
pub mod display;
