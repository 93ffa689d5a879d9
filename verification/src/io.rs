//! Byte-stream reading and writing, and streams of items, as futures.

pub mod read;

pub mod stream;

pub mod write;
