//! The part of a DRM device that its driver's private data lives in.

use vstd::prelude::*;

use crate::error::Error;

verus! {

/// A DRM driver: the type of the private data its devices carry.
pub trait Driver {
    /// Driver specific data of each device.
    type Data;
}

/// A DRM device with its driver's private data.
pub struct Device<T: Driver> {
    data: T::Data,
}

impl<T: Driver> Device<T> {
    /// The device's private data.
    pub closed spec fn data_spec(&self) -> T::Data {
        self.data
    }

    /// Creates a device from the result of initialising its private data.
    /// When the data could not be initialised no device exists and the error
    /// is returned; nothing of the data is left to drop.
    pub fn new(data: Result<T::Data, Error>) -> (r: Result<Self, Error>)
        ensures
            match data {
                Ok(d) => r matches Ok(dev) && dev.data_spec() == d,
                Err(e) => r matches Err(re) && re == e,
            },
    {
        match data {
            Ok(data) => Ok(Device { data }),
            Err(e) => Err(e),
        }
    }

    /// Returns the device's private data.
    pub fn data(&self) -> (r: &T::Data)
        ensures
            *r == self.data_spec(),
    {
        &self.data
    }

    /// Returns the device's private data for changing it.
    pub fn data_mut(&mut self) -> (r: &mut T::Data)
        ensures
            *r == old(self).data_spec(),
            final(self).data_spec() == *final(r),
    {
        &mut self.data
    }
}

} // verus!
