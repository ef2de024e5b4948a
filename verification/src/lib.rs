//! Sort-and-undo engine for triaging a folder of images: a queue of pending
//! image paths, three destination category slots, a reversible action log,
//! and the arithmetic that fits a decoded image into a viewport.

pub mod action;
pub mod catalog;
pub mod engine;
pub mod paths;
pub mod preview;
