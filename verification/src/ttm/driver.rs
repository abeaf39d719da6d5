//! The TTM side of a DRM driver: its associated types and the private data
//! that holds the TTM device.

use vstd::prelude::*;

use crate::drm;
use crate::error::{Error, errno_code};
use crate::ttm::bo::{BufferObject, DriverBufferObject};
use crate::ttm::device::Device;
use crate::ttm::tt::Tt;

verus! {

/// The buffer object type of TTM driver `T`.
pub type BufferObjectForDriver<'d, T> = BufferObject<'d, <T as DriverTTM>::BufferObject>;

/// The page table object type of TTM driver `T`.
pub type TtForDriver<T> = Tt<<T as DriverTTM>::Tt>;

/// A DRM driver that manages its memory with TTM.
pub trait DriverTTM: drm::Driver<Data = WithTTMData<Self>> + Sized {
    /// Driver specific data.
    type DataTTM;

    /// The kind of TTM+GEM object driver object; it implements
    /// [`DriverBufferObject`] for this driver.
    type BufferObject;

    /// The driver's page table object; it implements [`DriverTt`] for this
    /// driver.
    type Tt;
}

/// The private data of a TTM driver's DRM device: the driver's own data, and
/// the TTM device, which is set once after the DRM device exists.
pub struct WithTTMData<T: DriverTTM> {
    inner: T::DataTTM,
    ttm: Option<Device<T>>,
}

impl<T: DriverTTM> WithTTMData<T> {
    /// The driver's own data.
    pub closed spec fn inner_spec(&self) -> T::DataTTM {
        self.inner
    }

    /// The TTM device, once set.
    pub closed spec fn ttm_spec(&self) -> Option<Device<T>> {
        self.ttm
    }

    /// The private data for the result of initialising the driver's data;
    /// the TTM device is not set yet.
    pub fn new(data: Result<T::DataTTM, Error>) -> (r: Result<Self, Error>)
        ensures
            match data {
                Ok(d) => r matches Ok(w) && w.inner_spec() == d && w.ttm_spec() is None,
                Err(e) => r matches Err(re) && re == e,
            },
    {
        match data {
            Ok(inner) => Ok(WithTTMData { inner, ttm: None }),
            Err(e) => Err(e),
        }
    }

    /// Whether the TTM device is set.
    pub fn has_ttm_device(&self) -> (r: bool)
        ensures
            r == (self.ttm_spec() is Some),
    {
        self.ttm.is_some()
    }

    /// Returns the TTM device, which must have been set.
    pub fn ttm_device(&self) -> (r: &Device<T>)
        requires
            self.ttm_spec() is Some,
        ensures
            *r == self.ttm_spec()->Some_0,
    {
        self.ttm.as_ref().unwrap()
    }

    /// Sets the TTM device if none is set yet and says whether it did; a
    /// device that is already set stays.
    pub fn populate_ttm(&mut self, device: Device<T>) -> (r: bool)
        ensures
            r == (old(self).ttm_spec() is None),
            final(self).ttm_spec() == (if r {
                Some(device)
            } else {
                old(self).ttm_spec()
            }),
            final(self).inner_spec() == old(self).inner_spec(),
    {
        if self.ttm.is_none() {
            self.ttm = Some(device);
            true
        } else {
            false
        }
    }
}

impl<T: DriverTTM> drm::Device<T> {
    /// Gives a DRM device the TTM device `device`, after TTM's initialisation
    /// of that device returned `status`: a negative status releases the DRM
    /// device and returns TTM's error. Otherwise the initialised device, with
    /// its callbacks and flags, is set in the DRM device's private data, unless
    /// a TTM device is set already, which then stays; the driver's own data
    /// stays as it was.
    pub fn init_ttm(self, device: Device<T>, status: i32) -> (r: Result<Self, Error>)
        ensures
            r is Ok <==> status >= 0,
            r matches Ok(drm) ==> {
                &&& drm.data_spec().inner_spec() == self.data_spec().inner_spec()
                &&& drm.data_spec().ttm_spec() is Some
                &&& self.data_spec().ttm_spec() is None ==> {
                    let dev = drm.data_spec().ttm_spec()->Some_0;
                    &&& dev.initialized_spec()
                    &&& dev.funcs_spec() == device.funcs_spec()
                    &&& dev.init_flags_spec() == device.init_flags_spec()
                }
                &&& self.data_spec().ttm_spec() is Some ==> drm.data_spec().ttm_spec()
                    == self.data_spec().ttm_spec()
            },
            r matches Err(e) ==> e@ == errno_code(status),
    {
        let mut drm = self;
        let ttm_device = device.init(status)?;
        drm.data_mut().populate_ttm(ttm_device);
        Ok(drm)
    }
}

impl<T: DriverTTM> core::ops::Deref for WithTTMData<T> {
    type Target = T::DataTTM;

    fn deref(&self) -> (r: &T::DataTTM)
        ensures
            *r == self.inner_spec(),
    {
        &self.inner
    }
}

} // verus!
