//! The capabilities that every backend offers.

use crate::errors::Error;
use crate::types::snapshot::{Snapshot, TIME_TO_EMPTY_CEILING, TIME_TO_FULL_CEILING};
use crate::types::state::State;
use crate::types::technology::Technology;
use crate::units::{
    ElectricPotential, Energy, Power, Ratio, ThermodynamicTemperature, Time, RATIO_WHOLE,
};
use std::rc::Rc;
use vstd::prelude::*;

verus! {

/// Whether a borrowed text, if any, is the text that is held, if any.
pub open spec fn same_text(given: Option<&str>, held: Option<String>) -> bool {
    match (given, held) {
        (Some(g), Some(h)) => g@ == h@,
        (None, None) => true,
        _ => false,
    }
}

/// The battery subsystem of the machine.
pub trait BatteryManager: Sized {
    /// Gets hold of the subsystem, in one attempt.
    fn new() -> Result<Self, Error>;
}

/// A cursor over the batteries that the system shows. It yields each of
/// them once and cannot be set back.
pub trait BatteryIterator: Sized {
    type Manager: BatteryManager;

    type Device: BatteryDevice;

    /// Starts a walk over the batteries. The cursor has to keep `manager`
    /// for as long as it lives, even where it makes no use of it.
    fn new(manager: Rc<Self::Manager>) -> Result<Self, Error>;

    /// The next battery, with all its readings taken, or the reason why it
    /// could not be read; `None` at the end.
    fn next(&mut self) -> Option<Result<Self::Device, Error>>;
}

/// One battery with the readings taken of it. Reading them back never
/// fails: only `refresh` turns to the system again.
pub trait BatteryDevice: Sized {
    /// The readings that the device holds.
    spec fn snapshot(&self) -> Snapshot;

    /// Takes the readings of this battery anew.
    fn refresh(&mut self) -> Result<(), Error>;

    /// The full capacity as a share of the designed one, never above the
    /// whole.
    fn state_of_health(&self) -> (r: Ratio)
        ensures
            r.parts_per_million <= RATIO_WHOLE,
        default_ensures
            r == self.snapshot().state_of_health(),
    {
        self.energy_full().bounded_ratio(self.energy_full_design())
    }

    /// The energy held as a share of the full capacity, never above the
    /// whole.
    fn state_of_charge(&self) -> (r: Ratio)
        ensures
            r.parts_per_million <= RATIO_WHOLE,
        default_ensures
            r == self.snapshot().state_of_charge(),
    {
        self.energy().bounded_ratio(self.energy_full())
    }

    fn energy(&self) -> (r: Energy)
        ensures
            r == self.snapshot().energy,
    ;

    fn energy_full(&self) -> (r: Energy)
        ensures
            r == self.snapshot().energy_full,
    ;

    fn energy_full_design(&self) -> (r: Energy)
        ensures
            r == self.snapshot().energy_full_design,
    ;

    fn energy_rate(&self) -> (r: Power)
        ensures
            r == self.snapshot().energy_rate,
    ;

    fn state(&self) -> (r: State)
        ensures
            r == self.snapshot().state,
    ;

    fn voltage(&self) -> (r: ElectricPotential)
        ensures
            r == self.snapshot().voltage,
    ;

    fn temperature(&self) -> (r: Option<ThermodynamicTemperature>)
        ensures
            r == self.snapshot().temperature,
    ;

    fn vendor(&self) -> (r: Option<&str>)
        ensures
            same_text(r, self.snapshot().vendor),
    ;

    fn model(&self) -> (r: Option<&str>)
        ensures
            same_text(r, self.snapshot().model),
    ;

    fn serial_number(&self) -> (r: Option<&str>)
        ensures
            same_text(r, self.snapshot().serial_number),
    ;

    fn technology(&self) -> (r: Technology)
        ensures
            r == self.snapshot().technology,
    ;

    fn cycle_count(&self) -> (r: Option<u32>)
        ensures
            r == self.snapshot().cycle_count,
    ;

    /// The time until the battery is full, computed from the flow of
    /// energy at this moment. A backend that is told the time by the
    /// hardware returns that in its place.
    fn time_to_full(&self) -> (r: Option<Time>)
        default_ensures
            r == self.snapshot().time_to_full(),
    {
        let energy_rate = self.energy_rate();
        match self.state() {
            // Right after the charger is plugged in the rate can still be
            // zero: there is no time to tell then.
            State::Charging if !energy_rate.is_zero() => {
                // A driver may report more energy than the full capacity
                // while it still charges: there is no telling how long.
                let energy_left: i64 = self.energy_full().milliwatt_hours as i64
                    - self.energy().milliwatt_hours as i64;
                if energy_left < 0 {
                    return None;
                }
                let ceiling = Time { seconds: TIME_TO_FULL_CEILING };
                if ceiling.is_exceeded(energy_left, energy_rate) {
                    None
                } else {
                    Some(Time::at_rate(energy_left, energy_rate))
                }
            },
            _ => None,
        }
    }

    /// The time until the battery is empty, computed from the flow of
    /// energy at this moment. A backend that is told the time by the
    /// hardware returns that in its place.
    fn time_to_empty(&self) -> (r: Option<Time>)
        default_ensures
            r == self.snapshot().time_to_empty(),
    {
        let energy_rate = self.energy_rate();
        match self.state() {
            // Right after the charger is unplugged the rate can still be
            // zero: there is no time to tell then.
            State::Discharging if !energy_rate.is_zero() => {
                let energy: i64 = self.energy().milliwatt_hours as i64;
                let ceiling = Time { seconds: TIME_TO_EMPTY_CEILING };
                if ceiling.is_exceeded(energy, energy_rate) {
                    None
                } else {
                    Some(Time::at_rate(energy, energy_rate))
                }
            },
            _ => None,
        }
    }
}

} // verus!
