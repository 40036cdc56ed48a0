//! What a backend has to offer, and the backends that ask for no system call.

pub mod traits;
pub mod windows;
