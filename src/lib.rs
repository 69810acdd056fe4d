//! A thread-safe, reference-counted handle with copy-on-write mutation.

pub mod handle;

pub use handle::Arcow;
