use crate::errors::Error;
use crate::platform::traits::BatteryIterator;
use crate::types::battery::Battery;
use std::rc::Rc;
use vstd::prelude::*;

verus! {

/// One walk over the batteries of the system. It yields each battery once
/// and cannot be set back: a new walk takes a new call of
/// `Manager::batteries`.
///
/// The walk keeps a pointer of its own to the backend's manager, so the
/// manager lives at least as long as the walk does.
pub struct Batteries<I: BatteryIterator> {
    manager: Rc<I::Manager>,
    inner: I,
}

impl<I: BatteryIterator> Batteries<I> {
    /// The backend's manager that this walk holds.
    pub closed spec fn manager(&self) -> I::Manager {
        *self.manager
    }

    /// The backend's cursor that this walk steps.
    pub closed spec fn cursor(&self) -> I {
        self.inner
    }

    /// Wraps what the backend gave for a new walk: its cursor, together
    /// with the manager it was made from, or its error as it is.
    pub fn from_backend(
        manager: Rc<I::Manager>,
        backend: Result<I, Error>,
    ) -> (r: Result<Batteries<I>, Error>)
        ensures
            match backend {
                Ok(cursor) => r matches Ok(b) && b.manager() == *manager && b.cursor() == cursor,
                Err(error) => r == Err::<Batteries<I>, Error>(error),
            },
    {
        match backend {
            Ok(inner) => Ok(Batteries { manager, inner }),
            Err(error) => Err(error),
        }
    }

    /// The backend's manager, which is there for as long as the walk is,
    /// whatever became of the `Manager` that started it.
    pub fn backend(&self) -> (r: &I::Manager)
        ensures
            *r == self.manager(),
    {
        &*self.manager
    }

    /// Steps the backend's cursor once, and wraps what it gave: the next
    /// battery, the reason why it could not be read, or `None` at the end.
    /// The manager held stays the same.
    pub fn next(&mut self) -> (r: Option<Result<Battery<I::Device>, Error>>)
        ensures
            final(self).manager() == old(self).manager(),
            exists|cursor: &mut I, step: Option<Result<I::Device, Error>>|
                *cursor == old(self).cursor() && *final(cursor) == final(self).cursor()
                    && call_ensures(I::next, (cursor,), step) && Battery::wraps(step, r),
    {
        Battery::wrap(self.inner.next())
    }
}

} // verus!
