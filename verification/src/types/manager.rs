use crate::errors::Error;
use crate::platform::traits::{BatteryIterator, BatteryManager};
use crate::types::iterator::Batteries;
use std::rc::Rc;
use vstd::prelude::*;

verus! {

/// `Rc::clone` of std: one more pointer to the same value, which now lives
/// until the last of its pointers is gone.
#[verifier::external_body]
pub(crate) fn share<T>(pointer: &Rc<T>) -> (r: Rc<T>)
    ensures
        r == *pointer,
{
    Rc::clone(pointer)
}

/// The way to the batteries of the system, over the backend whose cursor
/// is `I`.
pub struct Manager<I: BatteryIterator> {
    inner: Rc<I::Manager>,
}

impl<I: BatteryIterator> Manager<I> {
    /// The backend that this manager shares with its cursors.
    pub closed spec fn backend(&self) -> I::Manager {
        *self.inner
    }

    /// Wraps what the backend gave: its manager, or its error as it is.
    pub fn from_backend(backend: Result<I::Manager, Error>) -> (r: Result<Manager<I>, Error>)
        ensures
            match backend {
                Ok(manager) => r matches Ok(m) && m.backend() == manager,
                Err(error) => r == Err::<Manager<I>, Error>(error),
            },
    {
        match backend {
            Ok(manager) => Ok(Manager { inner: Rc::new(manager) }),
            Err(error) => Err(error),
        }
    }

    /// Creates a manager: one attempt at the backend, whose error comes
    /// back as it is.
    pub fn new() -> (r: Result<Manager<I>, Error>)
        ensures
            match r {
                Ok(m) => call_ensures(I::Manager::new, (), Ok(m.backend())),
                Err(error) => call_ensures(I::Manager::new, (), Err(error)),
            },
    {
        Self::from_backend(I::Manager::new())
    }

    /// Starts a new walk over the batteries. Each call asks the backend
    /// for a cursor of its own, made from one more pointer to this
    /// manager's backend; the walk holds that backend for as long as it
    /// lives. The backend's error comes back as it is.
    pub fn batteries(&self) -> (r: Result<Batteries<I>, Error>)
        ensures
            match r {
                Ok(walk) => walk.manager() == self.backend() && exists|pointer: Rc<I::Manager>|
                    *pointer == self.backend() && call_ensures(I::new, (pointer,), Ok(walk.cursor())),
                Err(error) => exists|pointer: Rc<I::Manager>|
                    *pointer == self.backend() && call_ensures(I::new, (pointer,), Err(error)),
            },
    {
        let inner = I::new(share(&self.inner));
        Batteries::from_backend(share(&self.inner), inner)
    }
}

} // verus!
