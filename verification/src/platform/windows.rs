//! The backend for Windows.

pub mod manager;

pub use manager::PowerManager;
