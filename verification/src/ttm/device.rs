//! TTM devices and the decisions of their callbacks.

use vstd::prelude::*;

use core::marker::PhantomData;

use crate::error::{Error, errno_code, to_result};
use crate::ttm::{InitRef, StageAlloc};
use crate::ttm::bo::{BufferObject, DriverBufferObject, TtmBufferObject};
use crate::ttm::driver::{BufferObjectForDriver, DriverTTM, TtForDriver};
use crate::ttm::tt::{DriverTt, Tt, TtmTt};

verus! {

/// A buffer object as a TTM callback receives it: either a transfer
/// ("ghost") object that TTM made on its own, or one of the driver's objects.
pub enum TtmBoRef<'a, B: crate::ttm::bo::DriverBufferObject> {
    /// A transfer object; it belongs to no DRM device.
    Transfer(&'a TtmBufferObject),
    /// An object of the driver.
    Driver(&'a BufferObject<'a, B>),
}

impl<'a, B: crate::ttm::bo::DriverBufferObject> TtmBoRef<'a, B> {
    /// The TTM object the callback was handed.
    pub open spec fn raw_spec(&self) -> TtmBufferObject {
        match *self {
            TtmBoRef::Transfer(raw) => *raw,
            TtmBoRef::Driver(bo) => bo.obj_spec(),
        }
    }

    /// Whether the reference is consistent with what TTM hands over: transfer
    /// objects belong to no DRM device, the driver's objects to one.
    pub open spec fn wf(&self) -> bool {
        match *self {
            TtmBoRef::Transfer(raw) => !raw.base.has_dev,
            TtmBoRef::Driver(bo) => bo.obj_spec().base.has_dev,
        }
    }

    /// The TTM object the callback was handed.
    pub fn raw(&self) -> (r: &'a TtmBufferObject)
        ensures
            *r == self.raw_spec(),
    {
        match *self {
            TtmBoRef::Transfer(raw) => raw,
            TtmBoRef::Driver(bo) => bo.as_raw_ttm(),
        }
    }
}

/// The TTM device of a driver; one per DRM device.
/// Which callbacks of `struct ttm_device_funcs` a TTM device is given.
#[derive(Debug, Clone, Copy, PartialEq, Eq, Structural)]
pub struct TtmDeviceFuncs {
    /// `ttm_tt_create` (required, fallible).
    pub ttm_tt_create: bool,
    /// `ttm_tt_populate` (optional, fallible).
    pub ttm_tt_populate: bool,
    /// `ttm_tt_unpopulate` (optional).
    pub ttm_tt_unpopulate: bool,
    /// `ttm_tt_destroy` (required).
    pub ttm_tt_destroy: bool,
    /// `eviction_valuable`.
    pub eviction_valuable: bool,
    /// `evict_flags`.
    pub evict_flags: bool,
    /// `move` (required).
    pub move_: bool,
    /// `delete_mem_notify` (optional).
    pub delete_mem_notify: bool,
    /// `swap_notify` (optional).
    pub swap_notify: bool,
    /// `io_mem_reserve` (optional, fallible).
    pub io_mem_reserve: bool,
    /// `io_mem_free` (optional).
    pub io_mem_free: bool,
    /// `io_mem_pfn` (optional).
    pub io_mem_pfn: bool,
    /// `access_memory` (optional, fallible).
    pub access_memory: bool,
    /// `release_notify` (optional).
    pub release_notify: bool,
}

/// The callbacks a driver's TTM device is given: page table object creation
/// and destruction, and moves; every other callback is left empty.
pub open spec fn driver_device_funcs() -> TtmDeviceFuncs {
    TtmDeviceFuncs {
        ttm_tt_create: true,
        ttm_tt_populate: false,
        ttm_tt_unpopulate: false,
        ttm_tt_destroy: true,
        eviction_valuable: false,
        evict_flags: false,
        move_: true,
        delete_mem_notify: false,
        swap_notify: false,
        io_mem_reserve: false,
        io_mem_free: false,
        io_mem_pfn: false,
        access_memory: false,
        release_notify: false,
    }
}

/// The TTM device of a driver; one per DRM device. It records the callbacks
/// and the flags it is handed to TTM's initialisation with.
pub struct Device<T: DriverTTM> {
    funcs: TtmDeviceFuncs,
    init_flags: u32,
    initialized: bool,
    _marker: PhantomData<T>,
}

impl<T: DriverTTM> Device<T> {
    /// Whether TTM has initialised the device.
    pub closed spec fn initialized_spec(&self) -> bool {
        self.initialized
    }

    /// The callbacks the device is given.
    pub closed spec fn funcs_spec(&self) -> TtmDeviceFuncs {
        self.funcs
    }

    /// The flags handed to TTM's initialisation of the device.
    pub closed spec fn init_flags_spec(&self) -> u32 {
        self.init_flags
    }

    /// A TTM device with the driver's callbacks and no flags, ready for TTM's
    /// initialisation (see [`Self::init`]).
    pub fn new() -> (r: Self)
        ensures
            !r.initialized_spec(),
            r.funcs_spec() == driver_device_funcs(),
            r.init_flags_spec() == 0,
            r.funcs_spec().ttm_tt_create,
            r.funcs_spec().ttm_tt_destroy,
            r.funcs_spec().move_,
            !r.funcs_spec().ttm_tt_populate,
            !r.funcs_spec().ttm_tt_unpopulate,
            !r.funcs_spec().eviction_valuable,
            !r.funcs_spec().evict_flags,
            !r.funcs_spec().delete_mem_notify,
            !r.funcs_spec().swap_notify,
            !r.funcs_spec().io_mem_reserve,
            !r.funcs_spec().io_mem_free,
            !r.funcs_spec().io_mem_pfn,
            !r.funcs_spec().access_memory,
            !r.funcs_spec().release_notify,
    {
        let funcs = TtmDeviceFuncs {
            ttm_tt_create: true,
            ttm_tt_populate: false,
            ttm_tt_unpopulate: false,
            ttm_tt_destroy: true,
            eviction_valuable: false,
            evict_flags: false,
            move_: true,
            delete_mem_notify: false,
            swap_notify: false,
            io_mem_reserve: false,
            io_mem_free: false,
            io_mem_pfn: false,
            access_memory: false,
            release_notify: false,
        };
        Device { funcs, init_flags: 0, initialized: false, _marker: PhantomData }
    }

    /// Takes the status of TTM's initialisation of the device: a negative
    /// status fails it with its error, anything else gives the initialised
    /// device, with its callbacks and flags as they were.
    pub fn init(self, status: i32) -> (r: Result<Self, Error>)
        ensures
            r is Ok <==> status >= 0,
            r matches Ok(dev) ==> {
                &&& dev.initialized_spec()
                &&& dev.funcs_spec() == self.funcs_spec()
                &&& dev.init_flags_spec() == self.init_flags_spec()
            },
            r matches Err(e) ==> e@ == errno_code(status),
    {
        match to_result(status) {
            Ok(()) => Ok(
                Device {
                    funcs: self.funcs,
                    init_flags: self.init_flags,
                    initialized: true,
                    _marker: PhantomData,
                },
            ),
            Err(e) => Err(e),
        }
    }

    /// The callbacks the device is given.
    pub fn funcs(&self) -> (r: TtmDeviceFuncs)
        ensures
            r == self.funcs_spec(),
    {
        self.funcs
    }

    /// The flags handed to TTM's initialisation of the device.
    pub fn init_flags(&self) -> (r: u32)
        ensures
            r == self.init_flags_spec(),
    {
        self.init_flags
    }
}

impl<T: DriverTTM> Device<T> where
    T::BufferObject: DriverBufferObject,
    T::Tt: DriverTt<Driver = T>,
 {
    /// TTM asks for a page table object for `raw_bo`. A transfer object gets
    /// none; for an object of the driver, the driver's page table object is
    /// created, and a failure to create it gives none as well. The object
    /// returned still awaits TTM's initialisation (see [`Tt::init`]).
    pub fn tt_create_callback<'a>(raw_bo: TtmBoRef<'a, T::BufferObject>) -> (r: Option<
        TtForDriver<T>,
    >)
        requires
            raw_bo.wf(),
        ensures
            raw_bo is Transfer ==> r is None,
            r matches Some(tt) ==> tt.obj_spec() == (TtmTt { page_flags: 0, caching: 0, extra_pages: 0 }),
            raw_bo matches TtmBoRef::Driver(bo) ==> match r {
                Some(tt) => call_ensures(
                    <T::Tt as DriverTt>::new,
                    (InitRef::<'a, BufferObjectForDriver<'a, T>, StageAlloc>::new_spec(bo),),
                    Ok::<T::Tt, Error>(tt.inner_spec()),
                ),
                None => exists|e: Error|
                    #[trigger] call_ensures(
                        <T::Tt as DriverTt>::new,
                        (InitRef::<'a, BufferObjectForDriver<'a, T>, StageAlloc>::new_spec(bo),),
                        Err::<T::Tt, Error>(e),
                    ),
            },
    {
        if BufferObjectForDriver::<'a, T>::is_transfer_object(raw_bo.raw()) {
            return None;
        }
        match raw_bo {
            TtmBoRef::Driver(bo) => {
                let bo = InitRef::<'a, BufferObjectForDriver<'a, T>, StageAlloc>::new(bo);
                match TtForDriver::<T>::new(bo) {
                    Ok(tt) => Some(tt),
                    Err(_) => None,
                }
            },
            TtmBoRef::Transfer(_) => None,
        }
    }
}

/// A buffer object made by `BufferObject::new` belongs to its DRM device, so
/// handing it to a TTM callback as the driver's object is consistent, and the
/// callback never takes it for a transfer object.
pub proof fn lemma_new_bo_is_driver_object<'a, B: DriverBufferObject>(bo: &'a BufferObject<'a, B>)
    requires
        bo.obj_spec().base.has_dev,
    ensures
        TtmBoRef::Driver(bo).wf(),
        TtmBoRef::Driver(bo).raw_spec().base.has_dev,
{
}

} // verus!
