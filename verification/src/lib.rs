//! The portable logic of the CYD starter: a Snake rules engine, the paint
//! book's touch handling, high-score bookkeeping, and the screen geometry
//! they share.

pub mod geometry;
pub mod game;
pub mod app;
pub mod persistence;
