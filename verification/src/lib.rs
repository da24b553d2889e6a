//! A verified Game of Life engine with an inert border, and the layout of the
//! terminal widgets that show it.

pub mod board;
pub mod config;
pub mod display;
pub mod kernels;
pub mod layout;
pub mod rules;
pub mod ui;
