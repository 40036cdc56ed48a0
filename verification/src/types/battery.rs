use crate::errors::Error;
use crate::platform::traits::{same_text, BatteryDevice};
use crate::types::snapshot::Snapshot;
use crate::types::state::State;
use crate::types::technology::Technology;
use crate::units::{
    ElectricPotential, Energy, Power, Ratio, ThermodynamicTemperature, Time, RATIO_WHOLE,
};
use vstd::prelude::*;

verus! {

/// One battery of the system, as the backend `D` read it.
pub struct Battery<D: BatteryDevice> {
    device: D,
}

impl<D: BatteryDevice> View for Battery<D> {
    type V = Snapshot;

    /// The readings of the battery: those of its device.
    open spec fn view(&self) -> Snapshot {
        self.device().snapshot()
    }
}

impl<D: BatteryDevice> Battery<D> {
    /// The device of the backend that stands behind this battery.
    pub closed spec fn device(&self) -> D {
        self.device
    }

    /// The battery that stands for `device`.
    pub fn new(device: D) -> (r: Battery<D>)
        ensures
            r.device() == device,
            r@ == device.snapshot(),
    {
        Battery { device }
    }

    /// Gives the device back.
    pub fn into_device(self) -> (r: D)
        ensures
            r == self.device(),
    {
        self.device
    }

    /// Whether `wrapped` is the step `step` of a backend's cursor with its
    /// device, if it has one, made a battery: an error and the end stay
    /// what they are.
    pub open spec fn wraps(
        step: Option<Result<D, Error>>,
        wrapped: Option<Result<Battery<D>, Error>>,
    ) -> bool {
        match step {
            Some(Ok(device)) => wrapped matches Some(Ok(battery)) && battery.device() == device,
            Some(Err(error)) => wrapped == Some(Err::<Battery<D>, Error>(error)),
            None => wrapped is None,
        }
    }

    /// Wraps one step of a backend's cursor: a device becomes a battery,
    /// an error and the end stay what they are.
    pub fn wrap(step: Option<Result<D, Error>>) -> (r: Option<Result<Battery<D>, Error>>)
        ensures
            Self::wraps(step, r),
    {
        match step {
            Some(Ok(device)) => Some(Ok(Battery::new(device))),
            Some(Err(error)) => Some(Err(error)),
            None => None,
        }
    }

    /// Takes the readings anew: one call of the backend's `refresh` on the
    /// device. Whether that succeeds, and what the readings are then, is
    /// the backend's answer.
    pub fn refresh(&mut self) -> (r: Result<(), Error>)
        ensures
            exists|device: &mut D|
                *device == old(self).device() && *final(device) == final(self).device()
                    && call_ensures(D::refresh, (device,), r),
    {
        self.device.refresh()
    }

    /// The energy held as a share of the full capacity, as the backend
    /// answers it: never above the whole.
    pub fn state_of_charge(&self) -> (r: Ratio)
        ensures
            call_ensures(D::state_of_charge, (&self.device(),), r),
            r.parts_per_million <= RATIO_WHOLE,
    {
        self.device.state_of_charge()
    }

    /// The full capacity as a share of the designed one, as the backend
    /// answers it: never above the whole.
    pub fn state_of_health(&self) -> (r: Ratio)
        ensures
            call_ensures(D::state_of_health, (&self.device(),), r),
            r.parts_per_million <= RATIO_WHOLE,
    {
        self.device.state_of_health()
    }

    /// The time until the battery is full, as the backend answers it.
    pub fn time_to_full(&self) -> (r: Option<Time>)
        ensures
            call_ensures(D::time_to_full, (&self.device(),), r),
    {
        self.device.time_to_full()
    }

    /// The time until the battery is empty, as the backend answers it.
    pub fn time_to_empty(&self) -> (r: Option<Time>)
        ensures
            call_ensures(D::time_to_empty, (&self.device(),), r),
    {
        self.device.time_to_empty()
    }

    pub fn energy(&self) -> (r: Energy)
        ensures
            r == self@.energy,
    {
        self.device.energy()
    }

    pub fn energy_full(&self) -> (r: Energy)
        ensures
            r == self@.energy_full,
    {
        self.device.energy_full()
    }

    pub fn energy_full_design(&self) -> (r: Energy)
        ensures
            r == self@.energy_full_design,
    {
        self.device.energy_full_design()
    }

    pub fn energy_rate(&self) -> (r: Power)
        ensures
            r == self@.energy_rate,
    {
        self.device.energy_rate()
    }

    pub fn state(&self) -> (r: State)
        ensures
            r == self@.state,
    {
        self.device.state()
    }

    pub fn voltage(&self) -> (r: ElectricPotential)
        ensures
            r == self@.voltage,
    {
        self.device.voltage()
    }

    pub fn temperature(&self) -> (r: Option<ThermodynamicTemperature>)
        ensures
            r == self@.temperature,
    {
        self.device.temperature()
    }

    pub fn vendor(&self) -> (r: Option<&str>)
        ensures
            same_text(r, self@.vendor),
    {
        self.device.vendor()
    }

    pub fn model(&self) -> (r: Option<&str>)
        ensures
            same_text(r, self@.model),
    {
        self.device.model()
    }

    pub fn serial_number(&self) -> (r: Option<&str>)
        ensures
            same_text(r, self@.serial_number),
    {
        self.device.serial_number()
    }

    pub fn technology(&self) -> (r: Technology)
        ensures
            r == self@.technology,
    {
        self.device.technology()
    }

    pub fn cycle_count(&self) -> (r: Option<u32>)
        ensures
            r == self@.cycle_count,
    {
        self.device.cycle_count()
    }
}

} // verus!
