use crate::errors::Error;
use crate::platform::traits::BatteryManager;
use vstd::prelude::*;

verus! {

/// The power subsystem of Windows. It holds nothing: the system hands out
/// device lists without a session.
#[derive(Debug)]
pub struct PowerManager;

impl Default for PowerManager {
    fn default() -> (r: PowerManager)
        ensures
            r == (PowerManager {  }),
    {
        PowerManager {  }
    }
}

impl BatteryManager for PowerManager {
    /// Always succeeds: there is nothing to get hold of.
    fn new() -> (r: Result<Self, Error>)
        ensures
            r == Ok::<PowerManager, Error>(PowerManager {  }),
    {
        Ok(PowerManager {  })
    }
}

} // verus!
