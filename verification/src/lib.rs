//! A uniform view of the batteries of a machine.
//!
//! A backend implements the three capabilities of [`platform::traits`];
//! [`Manager`], [`Batteries`] and [`Battery`] are the handles built on them.
//! Physical quantities are fixed-point integers, see [`units`].

pub mod boundary;
pub mod errors;
pub mod platform;
pub mod types;
pub mod units;

pub use errors::{Error, ErrorKind, LastError};
pub use platform::traits::{BatteryDevice, BatteryIterator, BatteryManager};
pub use platform::windows::PowerManager;
pub use types::battery::Battery;
pub use types::iterator::Batteries;
pub use types::manager::Manager;
pub use types::snapshot::{Snapshot, TIME_TO_EMPTY_CEILING, TIME_TO_FULL_CEILING};
pub use types::state::State;
pub use types::technology::Technology;
