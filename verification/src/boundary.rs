//! The handles for a caller that knows neither `Result` nor `Option` of a
//! `Result`: every call gives a value or nothing, and leaves the message of
//! a failure in the caller's [`LastError`].
//!
//! The caller's side turns a value into an opaque handle and nothing into a
//! null handle, and keeps one slot for each of its threads.

use crate::errors::{Error, LastError};
use crate::platform::traits::{BatteryDevice, BatteryIterator, BatteryManager};
use crate::types::battery::Battery;
use crate::types::iterator::Batteries;
use crate::types::manager::Manager;
use std::rc::Rc;
use vstd::prelude::*;

verus! {

/// Creates a manager. Where the backend fails there is no manager, and the
/// slot holds the message of the backend's error, which is never empty.
pub fn manager_new<I: BatteryIterator>(slot: &mut LastError) -> (r: Option<Manager<I>>)
    ensures
        match r {
            Some(manager) => call_ensures(I::Manager::new, (), Ok(manager.backend()))
                && final(slot)@ == old(slot)@,
            None => exists|error: Error|
                call_ensures(I::Manager::new, (), Err(error))
                    && final(slot)@ == Some(error.rendered()),
        },
        r is None ==> final(slot).text().len() > 0,
{
    slot.capture(Manager::new())
}

/// Starts a walk over the batteries of `manager`. Where the backend fails
/// there is no walk, and the slot holds the message of the backend's
/// error.
pub fn manager_iter<I: BatteryIterator>(
    manager: &Manager<I>,
    slot: &mut LastError,
) -> (r: Option<Batteries<I>>)
    ensures
        match r {
            Some(walk) => walk.manager() == manager.backend() && final(slot)@ == old(slot)@
                && exists|pointer: Rc<I::Manager>|
                *pointer == manager.backend()
                    && call_ensures(I::new, (pointer,), Ok(walk.cursor())),
            None => exists|pointer: Rc<I::Manager>, error: Error|
                *pointer == manager.backend() && call_ensures(I::new, (pointer,), Err(error))
                    && final(slot)@ == Some(error.rendered()),
        },
        r is None ==> final(slot).text().len() > 0,
{
    slot.capture(manager.batteries())
}

/// What one step of a walk is to the caller: the battery, or nothing, with
/// the slot written where a battery could not be read and left alone at
/// the end of the walk.
pub open spec fn step_outcome<D: BatteryDevice>(
    step: Option<Result<Battery<D>, Error>>,
    before: Option<Seq<char>>,
    battery: Option<Battery<D>>,
    after: Option<Seq<char>>,
) -> bool {
    match step {
        Some(Ok(b)) => battery == Some(b) && after == before,
        Some(Err(error)) => battery is None && after == Some(error.rendered()),
        None => battery is None && after == before,
    }
}

/// Hands one step of a walk to the caller: see [`step_outcome`].
pub fn surface_step<D: BatteryDevice>(
    step: Option<Result<Battery<D>, Error>>,
    slot: &mut LastError,
) -> (r: Option<Battery<D>>)
    ensures
        step_outcome(step, old(slot)@, r, final(slot)@),
{
    match step {
        Some(result) => slot.capture(result),
        None => None,
    }
}

/// Steps `walk` once. A battery that could not be read gives nothing and
/// leaves its message in the slot; the end of the walk gives nothing and
/// leaves the slot as it is.
pub fn iterator_next<I: BatteryIterator>(
    walk: &mut Batteries<I>,
    slot: &mut LastError,
) -> (r: Option<Battery<I::Device>>)
    ensures
        final(walk).manager() == old(walk).manager(),
        exists|
            cursor: &mut I,
            step: Option<Result<I::Device, Error>>,
            wrapped: Option<Result<Battery<I::Device>, Error>>,
        |
            *cursor == old(walk).cursor() && *final(cursor) == final(walk).cursor()
                && call_ensures(I::next, (cursor,), step) && Battery::wraps(step, wrapped)
                && step_outcome(wrapped, old(slot)@, r, final(slot)@),
{
    surface_step(walk.next(), slot)
}

} // verus!
