//! Scoring rules, puzzle generation and shell state for a small trainer of
//! cognitive mini-games ("katas").

mod chance;
pub mod games;
pub mod storage;
pub mod text;
pub mod ui;
