//! Lifecycle of a full-screen terminal session: entering the alternate
//! screen in raw mode, restoring the terminal exactly once, and deciding
//! when the input loop ends.

pub mod input;
pub mod screen;
