//! A quota-bounded chunk store whose file-system work is left to its caller.
//!
//! The store keeps the space accounting and decides, step by step, what has to
//! happen in the directory that holds the chunks. It never touches that
//! directory itself: every operation is a short exchange in which the store
//! asks for one file-system action and is handed the result.

pub mod chunk_store;
pub mod directory;
pub mod error;
pub mod file_name;
pub mod listing;
