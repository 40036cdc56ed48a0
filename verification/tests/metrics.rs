use battery::units::{
    ElectricPotential, Energy, Power, Ratio, ThermodynamicTemperature, Time, RATIO_WHOLE,
    SECONDS_PER_HOUR,
};
use battery::{
    BatteryDevice, Error, ErrorKind, Snapshot, State, Technology, TIME_TO_EMPTY_CEILING,
    TIME_TO_FULL_CEILING,
};

/// A device that holds its readings and computes everything by default.
struct Plain(Snapshot);

impl BatteryDevice for Plain {
    fn snapshot(&self) -> Snapshot {
        self.0.clone()
    }

    fn refresh(&mut self) -> Result<(), Error> {
        Ok(())
    }

    fn energy(&self) -> Energy {
        self.0.energy
    }

    fn energy_full(&self) -> Energy {
        self.0.energy_full
    }

    fn energy_full_design(&self) -> Energy {
        self.0.energy_full_design
    }

    fn energy_rate(&self) -> Power {
        self.0.energy_rate
    }

    fn state(&self) -> State {
        self.0.state
    }

    fn voltage(&self) -> ElectricPotential {
        self.0.voltage
    }

    fn temperature(&self) -> Option<ThermodynamicTemperature> {
        self.0.temperature
    }

    fn vendor(&self) -> Option<&str> {
        self.0.vendor.as_deref()
    }

    fn model(&self) -> Option<&str> {
        self.0.model.as_deref()
    }

    fn serial_number(&self) -> Option<&str> {
        self.0.serial_number.as_deref()
    }

    fn technology(&self) -> Technology {
        self.0.technology
    }

    fn cycle_count(&self) -> Option<u32> {
        self.0.cycle_count
    }
}

fn device(state: State, energy: i32, energy_full: i32, energy_full_design: i32, rate: i32) -> Plain {
    Plain(Snapshot {
        energy: Energy { milliwatt_hours: energy },
        energy_full: Energy { milliwatt_hours: energy_full },
        energy_full_design: Energy { milliwatt_hours: energy_full_design },
        energy_rate: Power { milliwatts: rate },
        voltage: ElectricPotential { millivolts: 11_400 },
        temperature: None,
        state,
        vendor: None,
        model: None,
        serial_number: None,
        technology: Technology::LithiumIon,
        cycle_count: None,
    })
}

fn seconds(time: Option<Time>) -> Option<i64> {
    time.map(|t| t.seconds)
}

#[test]
fn constants_have_their_values() {
    assert_eq!(RATIO_WHOLE, 1_000_000);
    assert_eq!(SECONDS_PER_HOUR, 3_600);
    assert_eq!(TIME_TO_FULL_CEILING, 10 * 3_600);
    assert_eq!(TIME_TO_EMPTY_CEILING, 10 * 24 * 3_600);
}

#[test]
fn time_to_full_of_ten_watt_hours_at_five_watts_is_two_hours() {
    let d = device(State::Charging, 40_000, 50_000, 50_000, 5_000);
    assert_eq!(d.time_to_full(), Some(Time { seconds: 2 * 3_600 }));
}

#[test]
fn time_to_empty_of_twenty_watt_hours_at_two_watts_is_ten_hours() {
    let d = device(State::Discharging, 20_000, 50_000, 50_000, 2_000);
    assert_eq!(d.time_to_empty(), Some(Time { seconds: 10 * 3_600 }));
}

#[test]
fn time_to_full_is_unknown_unless_charging() {
    for state in [State::Unknown, State::Discharging, State::Empty, State::Full] {
        let d = device(state, 40_000, 50_000, 50_000, 5_000);
        assert_eq!(d.time_to_full(), None);
    }
}

#[test]
fn time_to_empty_is_unknown_unless_discharging() {
    for state in [State::Unknown, State::Charging, State::Empty, State::Full] {
        let d = device(state, 20_000, 50_000, 50_000, 2_000);
        assert_eq!(d.time_to_empty(), None);
    }
}

#[test]
fn time_to_full_is_unknown_at_rate_zero() {
    let d = device(State::Charging, 40_000, 50_000, 50_000, 0);
    assert_eq!(d.time_to_full(), None);
}

#[test]
fn time_to_empty_is_unknown_at_rate_zero() {
    let d = device(State::Discharging, 20_000, 50_000, 50_000, 0);
    assert_eq!(d.time_to_empty(), None);
}

#[test]
fn time_to_full_is_unknown_above_full_capacity() {
    let d = device(State::Charging, 50_001, 50_000, 50_000, 5_000);
    assert_eq!(d.time_to_full(), None);
}

#[test]
fn time_to_full_of_a_full_battery_is_zero() {
    let d = device(State::Charging, 50_000, 50_000, 50_000, 5_000);
    assert_eq!(d.time_to_full(), Some(Time { seconds: 0 }));
}

#[test]
fn time_to_full_at_the_ceiling_is_known() {
    let d = device(State::Charging, 0, 50_000, 50_000, 5_000);
    assert_eq!(seconds(d.time_to_full()), Some(36_000));
}

#[test]
fn time_to_full_above_the_ceiling_is_unknown() {
    let d = device(State::Charging, 0, 50_000, 50_000, 4_999);
    assert_eq!(d.time_to_full(), None);
    let d = device(State::Charging, 0, 50_001, 50_001, 5_000);
    assert_eq!(d.time_to_full(), None);
    let d = device(State::Charging, 0, 1, 1, 1);
    assert_eq!(seconds(d.time_to_full()), Some(3_600));
    let d = device(State::Charging, 0, 11, 11, 1);
    assert_eq!(d.time_to_full(), None);
}

#[test]
fn time_to_empty_at_the_ceiling_is_known() {
    let d = device(State::Discharging, 240_000, 300_000, 300_000, 1_000);
    assert_eq!(seconds(d.time_to_empty()), Some(864_000));
}

#[test]
fn time_to_empty_above_the_ceiling_is_unknown() {
    let d = device(State::Discharging, 240_001, 300_000, 300_000, 1_000);
    assert_eq!(d.time_to_empty(), None);
    let d = device(State::Discharging, 240_000, 300_000, 300_000, 999);
    assert_eq!(d.time_to_empty(), None);
}

#[test]
fn times_are_rounded_toward_zero() {
    // 10 mWh at 7 mW: 36000 / 7 = 5142.86 s
    let d = device(State::Charging, 0, 10, 10, 7);
    assert_eq!(seconds(d.time_to_full()), Some(5_142));
    let d = device(State::Discharging, 10, 10, 10, 7);
    assert_eq!(seconds(d.time_to_empty()), Some(5_142));
    let d = device(State::Discharging, 10, 10, 10, -7);
    assert_eq!(seconds(d.time_to_empty()), Some(-5_142));
    let d = device(State::Discharging, -10, 10, 10, 7);
    assert_eq!(seconds(d.time_to_empty()), Some(-5_142));
    let d = device(State::Discharging, -10, 10, 10, -7);
    assert_eq!(seconds(d.time_to_empty()), Some(5_142));
}

#[test]
fn a_rate_of_the_wrong_sign_gives_a_negative_time() {
    let d = device(State::Charging, 40_000, 50_000, 50_000, -5_000);
    assert_eq!(seconds(d.time_to_full()), Some(-7_200));
    let d = device(State::Discharging, 20_000, 50_000, 50_000, -2_000);
    assert_eq!(seconds(d.time_to_empty()), Some(-36_000));
    // far below the ceiling in size, and yet known: only a time above it is dropped
    let d = device(State::Discharging, 300_000, 300_000, 300_000, -1);
    assert_eq!(seconds(d.time_to_empty()), Some(-1_080_000_000));
}

#[test]
fn times_at_the_ends_of_the_range() {
    let d = device(State::Charging, i32::MIN, i32::MAX, i32::MAX, 1);
    assert_eq!(d.time_to_full(), None);
    let d = device(State::Charging, i32::MIN, i32::MAX, i32::MAX, -1);
    assert_eq!(seconds(d.time_to_full()), Some(-(4_294_967_295i64 * 3_600)));
    let d = device(State::Charging, i32::MAX, i32::MIN, i32::MAX, 1);
    assert_eq!(d.time_to_full(), None);
    let d = device(State::Discharging, i32::MIN, 0, 0, i32::MIN);
    assert_eq!(seconds(d.time_to_empty()), Some(3_600));
    let d = device(State::Discharging, i32::MIN, 0, 0, -1);
    assert_eq!(d.time_to_empty(), None);
    let d = device(State::Discharging, i32::MIN, 0, 0, 1);
    assert_eq!(seconds(d.time_to_empty()), Some(-2_147_483_648i64 * 3_600));
    let d = device(State::Discharging, i32::MAX, 0, 0, i32::MAX);
    assert_eq!(seconds(d.time_to_empty()), Some(3_600));
}

#[test]
fn state_of_health_is_the_share_of_the_designed_capacity() {
    let d = device(State::Full, 50_000, 50_000, 60_000, 0);
    assert_eq!(d.state_of_health(), Ratio { parts_per_million: 833_333 });
    let d = device(State::Full, 0, 1, 3, 0);
    assert_eq!(d.state_of_health().parts_per_million, 333_333);
    let d = device(State::Full, 0, 2, 3, 0);
    assert_eq!(d.state_of_health().parts_per_million, 666_666);
}

#[test]
fn state_of_charge_is_the_share_of_the_full_capacity() {
    let d = device(State::Discharging, 40_000, 50_000, 60_000, 1_000);
    assert_eq!(d.state_of_charge(), Ratio { parts_per_million: 800_000 });
    let d = device(State::Discharging, 0, 50_000, 60_000, 1_000);
    assert_eq!(d.state_of_charge().parts_per_million, 0);
    let d = device(State::Discharging, 50_000, 50_000, 60_000, 1_000);
    assert_eq!(d.state_of_charge().parts_per_million, 1_000_000);
}

#[test]
fn a_share_above_the_whole_is_the_whole() {
    let d = device(State::Full, 70_000, 60_000, 50_000, 0);
    assert_eq!(d.state_of_health().parts_per_million, 1_000_000);
    assert_eq!(d.state_of_charge().parts_per_million, 1_000_000);
}

#[test]
fn a_negative_share_is_nothing() {
    let d = device(State::Unknown, -10, 50, -60, 0);
    assert_eq!(d.state_of_health().parts_per_million, 0);
    assert_eq!(d.state_of_charge().parts_per_million, 0);
}

#[test]
fn a_share_of_two_negative_readings_is_their_quotient() {
    let d = device(State::Unknown, -10, -40, -80, 0);
    assert_eq!(d.state_of_charge().parts_per_million, 250_000);
    assert_eq!(d.state_of_health().parts_per_million, 500_000);
    let d = device(State::Unknown, -50, -40, -30, 0);
    assert_eq!(d.state_of_charge().parts_per_million, 1_000_000);
    assert_eq!(d.state_of_health().parts_per_million, 1_000_000);
}

#[test]
fn a_share_of_nothing_is_taken_for_its_limit() {
    assert_eq!(
        Energy { milliwatt_hours: 5 }.bounded_ratio(Energy { milliwatt_hours: 0 }),
        Ratio { parts_per_million: 1_000_000 }
    );
    assert_eq!(
        Energy { milliwatt_hours: -5 }.bounded_ratio(Energy { milliwatt_hours: 0 }),
        Ratio { parts_per_million: 0 }
    );
    assert_eq!(
        Energy { milliwatt_hours: 0 }.bounded_ratio(Energy { milliwatt_hours: 0 }),
        Ratio { parts_per_million: 0 }
    );
}

#[test]
fn shares_at_the_ends_of_the_range() {
    let min = Energy { milliwatt_hours: i32::MIN };
    let max = Energy { milliwatt_hours: i32::MAX };
    let one = Energy { milliwatt_hours: 1 };
    let minus_one = Energy { milliwatt_hours: -1 };
    assert_eq!(min.bounded_ratio(min).parts_per_million, 1_000_000);
    assert_eq!(max.bounded_ratio(max).parts_per_million, 1_000_000);
    assert_eq!(min.bounded_ratio(max).parts_per_million, 0);
    assert_eq!(max.bounded_ratio(min).parts_per_million, 0);
    assert_eq!(one.bounded_ratio(max).parts_per_million, 0);
    assert_eq!(minus_one.bounded_ratio(min).parts_per_million, 0);
    assert_eq!(Energy { milliwatt_hours: i32::MAX - 1 }.bounded_ratio(max).parts_per_million, 999_999);
    assert_eq!(Energy { milliwatt_hours: i32::MIN + 1 }.bounded_ratio(min).parts_per_million, 999_999);
    assert_eq!(max.bounded_ratio(one).parts_per_million, 1_000_000);
    assert_eq!(min.bounded_ratio(minus_one).parts_per_million, 1_000_000);
}

#[test]
fn shares_stay_within_the_whole_on_a_grid_of_readings() {
    let values = [i32::MIN, -60_000, -50_000, -1, 0, 1, 40_000, 50_000, 60_000, i32::MAX];
    for &energy in &values {
        for &full in &values {
            for &design in &values {
                let d = device(State::Unknown, energy, full, design, 0);
                assert!(d.state_of_health().parts_per_million <= RATIO_WHOLE);
                assert!(d.state_of_charge().parts_per_million <= RATIO_WHOLE);
            }
        }
    }
}

#[test]
fn power_is_zero_only_at_zero() {
    assert!(Power { milliwatts: 0 }.is_zero());
    assert!(!Power { milliwatts: 1 }.is_zero());
    assert!(!Power { milliwatts: -1 }.is_zero());
    assert!(!Power { milliwatts: i32::MIN }.is_zero());
}

#[test]
fn error_kinds_have_their_labels() {
    assert_eq!(ErrorKind::Initialization.as_str(), "battery subsystem is not available");
    assert_eq!(ErrorKind::Enumeration.as_str(), "battery could not be read");
    assert_eq!(ErrorKind::Refresh.as_str(), "battery can no longer be read");
}

#[test]
fn default_state_and_technology_are_unknown() {
    assert_eq!(State::default(), State::Unknown);
    assert_eq!(Technology::default(), Technology::Unknown);
}
