//! Verified building blocks: a fixed-size worker pool that decides which
//! worker runs which task, and a set of small verified components
//! (searches, state machines, memoisation, formatting) around it.
pub mod blog;
pub mod cacher;
pub mod circles;
pub mod closures;
pub mod collections;
pub mod delivery;
pub mod fib;
pub mod generics;
pub mod gui;
pub mod http;
pub mod pointers;
pub mod pool;
pub mod quota;
pub mod records;
pub mod registry;
pub mod search;
pub mod shape;
pub mod shapes;
pub mod slices;
pub mod text;
pub mod workout;
