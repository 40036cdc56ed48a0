use crate::types::state::State;
use crate::types::technology::Technology;
use crate::units::{
    bounded_parts, lasts_longer, lemma_bounded_parts_in_range, magnitude, seconds_at_rate,
    ElectricPotential, Energy, Power, Ratio, ThermodynamicTemperature, Time, RATIO_WHOLE,
    SECONDS_PER_HOUR,
};
use vstd::prelude::*;

verus! {

/// The longest time to full, in seconds, that is taken for an estimate: ten
/// hours. A computed time above it is noise of a rate close to zero.
pub const TIME_TO_FULL_CEILING: i64 = 36_000;

/// The longest time to empty, in seconds, that is taken for an estimate:
/// ten days.
pub const TIME_TO_EMPTY_CEILING: i64 = 864_000;

/// The readings of one battery, taken together at one moment.
#[derive(Debug, PartialEq, Eq)]
pub struct Snapshot {
    pub energy: Energy,
    pub energy_full: Energy,
    pub energy_full_design: Energy,
    pub energy_rate: Power,
    pub voltage: ElectricPotential,
    pub temperature: Option<ThermodynamicTemperature>,
    pub state: State,
    pub vendor: Option<String>,
    pub model: Option<String>,
    pub serial_number: Option<String>,
    pub technology: Technology,
    pub cycle_count: Option<u32>,
}

impl Clone for Snapshot {
    fn clone(&self) -> (r: Snapshot)
        ensures
            r == *self,
    {
        Snapshot {
            energy: self.energy,
            energy_full: self.energy_full,
            energy_full_design: self.energy_full_design,
            energy_rate: self.energy_rate,
            voltage: self.voltage,
            temperature: self.temperature,
            state: self.state,
            vendor: self.vendor.clone(),
            model: self.model.clone(),
            serial_number: self.serial_number.clone(),
            technology: self.technology,
            cycle_count: self.cycle_count,
        }
    }
}

impl Snapshot {
    /// The energy that is missing to a full battery, in milliwatt hours.
    pub open spec fn energy_left(self) -> int {
        self.energy_full.milliwatt_hours - self.energy.milliwatt_hours
    }

    /// The full capacity as a share of the designed one.
    pub open spec fn state_of_health(self) -> Ratio {
        Ratio {
            parts_per_million: bounded_parts(
                self.energy_full.milliwatt_hours as int,
                self.energy_full_design.milliwatt_hours as int,
            ) as u32,
        }
    }

    /// The energy held as a share of the full capacity.
    pub open spec fn state_of_charge(self) -> Ratio {
        Ratio {
            parts_per_million: bounded_parts(
                self.energy.milliwatt_hours as int,
                self.energy_full.milliwatt_hours as int,
            ) as u32,
        }
    }

    /// Whether the readings give a time to full: the battery is charging at
    /// a rate other than zero, holds no more than its full capacity, and
    /// the time is not above the ceiling.
    pub open spec fn time_to_full_is_known(self) -> bool {
        &&& self.state == State::Charging
        &&& self.energy_rate.milliwatts != 0
        &&& self.energy_left() >= 0
        &&& !lasts_longer(
            self.energy_left(),
            self.energy_rate.milliwatts as int,
            TIME_TO_FULL_CEILING as int,
        )
    }

    /// The time until the battery is full at the present rate.
    pub open spec fn time_to_full(self) -> Option<Time> {
        if self.time_to_full_is_known() {
            Some(
                Time {
                    seconds: seconds_at_rate(
                        self.energy_left(),
                        self.energy_rate.milliwatts as int,
                    ) as i64,
                },
            )
        } else {
            None
        }
    }

    /// Whether the readings give a time to empty: the battery is
    /// discharging at a rate other than zero, and the time is not above the
    /// ceiling.
    pub open spec fn time_to_empty_is_known(self) -> bool {
        &&& self.state == State::Discharging
        &&& self.energy_rate.milliwatts != 0
        &&& !lasts_longer(
            self.energy.milliwatt_hours as int,
            self.energy_rate.milliwatts as int,
            TIME_TO_EMPTY_CEILING as int,
        )
    }

    /// The time until the battery is empty at the present rate.
    pub open spec fn time_to_empty(self) -> Option<Time> {
        if self.time_to_empty_is_known() {
            Some(
                Time {
                    seconds: seconds_at_rate(
                        self.energy.milliwatt_hours as int,
                        self.energy_rate.milliwatts as int,
                    ) as i64,
                },
            )
        } else {
            None
        }
    }
}

/// Health and charge are shares of a whole, whatever the readings: also
/// where a capacity is zero, negative, or smaller than what it is held
/// against.
pub proof fn lemma_shares_are_bounded(readings: Snapshot)
    ensures
        readings.state_of_health().parts_per_million <= RATIO_WHOLE,
        readings.state_of_charge().parts_per_million <= RATIO_WHOLE,
{
    lemma_bounded_parts_in_range(
        readings.energy_full.milliwatt_hours as int,
        readings.energy_full_design.milliwatt_hours as int,
    );
    lemma_bounded_parts_in_range(
        readings.energy.milliwatt_hours as int,
        readings.energy_full.milliwatt_hours as int,
    );
}

/// There is no time to full while the battery does not charge, while no
/// energy flows, while it holds more than its full capacity, and where the
/// time would be above the ceiling.
pub proof fn lemma_time_to_full_unknown(readings: Snapshot)
    requires
        readings.state != State::Charging || readings.energy_rate.milliwatts == 0
            || readings.energy_full.milliwatt_hours < readings.energy.milliwatt_hours
            || lasts_longer(
            readings.energy_full.milliwatt_hours - readings.energy.milliwatt_hours,
            readings.energy_rate.milliwatts as int,
            TIME_TO_FULL_CEILING as int,
        ),
    ensures
        readings.time_to_full() is None,
{
}

/// There is no time to empty while the battery does not discharge, while
/// no energy flows, and where the time would be above the ceiling.
pub proof fn lemma_time_to_empty_unknown(readings: Snapshot)
    requires
        readings.state != State::Discharging || readings.energy_rate.milliwatts == 0
            || lasts_longer(
            readings.energy.milliwatt_hours as int,
            readings.energy_rate.milliwatts as int,
            TIME_TO_EMPTY_CEILING as int,
        ),
    ensures
        readings.time_to_empty() is None,
{
}

/// Whole seconds never go above a ceiling that the exact time keeps to.
pub proof fn lemma_seconds_within_ceiling(energy: int, rate: int, ceiling: int)
    requires
        rate != 0,
        ceiling >= 0,
        !lasts_longer(energy, rate, ceiling),
    ensures
        seconds_at_rate(energy, rate) <= ceiling,
{
    let amount = energy * SECONDS_PER_HOUR;
    if amount == 0 || (amount > 0) == (rate > 0) {
        let n = magnitude(amount);
        let d = magnitude(rate);
        assert(n <= ceiling * d) by (nonlinear_arith)
            requires
                n == magnitude(amount),
                d == magnitude(rate),
                rate != 0,
                ceiling >= 0,
                amount == 0 || (amount > 0) == (rate > 0),
                if rate > 0 {
                    amount <= ceiling * rate
                } else {
                    amount >= ceiling * rate
                },
        ;
        assert(n / d <= ceiling) by (nonlinear_arith)
            requires
                0 <= n <= ceiling * d,
                d > 0,
        ;
    } else {
        let n = magnitude(amount);
        let d = magnitude(rate);
        assert(n / d >= 0) by (nonlinear_arith)
            requires
                n >= 0,
                d > 0,
        ;
    }
}

/// A time to full that is given is the whole seconds that the missing
/// energy takes at the present rate, and is not above the ceiling.
pub proof fn lemma_time_to_full_value(readings: Snapshot)
    requires
        readings.time_to_full_is_known(),
    ensures
        readings.time_to_full() matches Some(time) && time.seconds == seconds_at_rate(
            readings.energy_left(),
            readings.energy_rate.milliwatts as int,
        ) && time.seconds <= TIME_TO_FULL_CEILING,
{
    let left = readings.energy_left();
    let rate = readings.energy_rate.milliwatts as int;
    lemma_seconds_within_ceiling(left, rate, TIME_TO_FULL_CEILING as int);
    lemma_seconds_fit(left, rate);
}

/// A time to empty that is given is the whole seconds that the energy held
/// lasts at the present rate, and is not above the ceiling.
pub proof fn lemma_time_to_empty_value(readings: Snapshot)
    requires
        readings.time_to_empty_is_known(),
    ensures
        readings.time_to_empty() matches Some(time) && time.seconds == seconds_at_rate(
            readings.energy.milliwatt_hours as int,
            readings.energy_rate.milliwatts as int,
        ) && time.seconds <= TIME_TO_EMPTY_CEILING,
{
    let energy = readings.energy.milliwatt_hours as int;
    let rate = readings.energy_rate.milliwatts as int;
    lemma_seconds_within_ceiling(energy, rate, TIME_TO_EMPTY_CEILING as int);
    lemma_seconds_fit(energy, rate);
}

/// The whole seconds of readings fit the width of a [`Time`].
pub proof fn lemma_seconds_fit(energy: int, rate: int)
    requires
        rate != 0,
        -0x1_0000_0000 <= energy <= 0x1_0000_0000,
    ensures
        i64::MIN <= seconds_at_rate(energy, rate) <= i64::MAX,
{
    let n = magnitude(energy * SECONDS_PER_HOUR);
    let d = magnitude(rate);
    assert(0 <= n / d <= n) by (nonlinear_arith)
        requires
            n >= 0,
            d >= 1,
    ;
}

} // verus!
