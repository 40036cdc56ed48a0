//! The values that a caller of the library handles.

pub mod battery;
pub mod iterator;
pub mod manager;
pub mod snapshot;
pub mod state;
pub mod technology;
