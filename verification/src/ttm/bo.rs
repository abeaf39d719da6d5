//! GEM+TTM buffer objects.

use vstd::prelude::*;
use vstd::std_specs::convert::FromSpecImpl;

use crate::drm;
use crate::error::{EINVAL, Error, errno_code, to_result};
use crate::ttm::InitRef;
use crate::ttm::StageAlloc;
use crate::ttm::device::Device;
use crate::ttm::driver::DriverTTM;
use crate::ttm::placement::{Place, TtmPlacement};

verus! {

/// The driver's part of a buffer object.
pub trait DriverBufferObject: Sized {
    /// The driver the object belongs to.
    type Driver: DriverTTM<BufferObject = Self>;

    /// Arguments the driver takes to create an object.
    type Args;

    /// Initialises the driver's part of an object of `size` bytes on `drm`.
    fn new(drm: &drm::Device<Self::Driver>, size: usize, args: Self::Args) -> Result<Self, Error>;
}

/// The GEM object embedded in a TTM buffer object (`struct drm_gem_object`),
/// as far as the Rust side sets it up: its size, whether it is attached to a
/// DRM device, and whether its object functions are those of GEM+TTM objects.
#[derive(Debug, Clone, Copy, PartialEq, Eq, Structural)]
pub struct GemObject {
    /// Size of the object in bytes.
    pub size: usize,
    /// Whether the object belongs to a DRM device (its device pointer is set).
    pub has_dev: bool,
    /// Whether the object's functions are the GEM+TTM object functions
    /// (free through TTM, open and close through GEM).
    pub ttm_funcs: bool,
}

/// A TTM buffer object (`struct ttm_buffer_object`), as far as the Rust side
/// sets it up and reads it.
#[derive(Debug, Clone, Copy, PartialEq, Eq, Structural)]
pub struct TtmBufferObject {
    /// The embedded GEM object.
    pub base: GemObject,
}

/// The arguments the Rust side hands to `ttm_bo_init_validate` besides the
/// object, its TTM device and its placement list.
#[derive(Debug, Clone, Copy, PartialEq, Eq, Structural)]
pub struct TtmBoInitArgs {
    /// The object type (`enum ttm_bo_type`).
    pub bo_type: u32,
    /// The page alignment (0: none asked for).
    pub alignment: u32,
    /// Whether waits during validation may be interrupted.
    pub interruptible: bool,
}

/// A GEM+TTM buffer object of a driver. It refers to the DRM device it
/// belongs to, which outlives it, and to that device's TTM device, and keeps
/// the placement list and the arguments it is validated with.
pub struct BufferObject<'d, T: DriverBufferObject> {
    obj: TtmBufferObject,
    placement: TtmPlacement,
    init_args: TtmBoInitArgs,
    inner: T,
    drm: &'d drm::Device<T::Driver>,
    ttm: &'d Device<T::Driver>,
}

impl<'d, T: DriverBufferObject> BufferObject<'d, T> {
    /// The TTM object.
    pub closed spec fn obj_spec(&self) -> TtmBufferObject {
        self.obj
    }

    /// The driver's part of the object.
    pub closed spec fn inner_spec(&self) -> T {
        self.inner
    }

    /// The number of places in the placement list.
    pub closed spec fn num_placement_spec(&self) -> u32 {
        self.placement.num_placement
    }

    /// The places of the placement list.
    pub closed spec fn placement_spec(&self) -> Seq<crate::ttm::placement::TtmPlace> {
        self.placement.placement@
    }

    /// The arguments of the object's validation.
    pub closed spec fn init_args_spec(&self) -> TtmBoInitArgs {
        self.init_args
    }

    /// The DRM device the object belongs to.
    pub closed spec fn drm_spec(&self) -> drm::Device<T::Driver> {
        *self.drm
    }

    /// The TTM device that validates the object.
    pub closed spec fn ttm_spec(&self) -> Device<T::Driver> {
        *self.ttm
    }

    /// Creates a buffer object of `size` bytes on `drm`, whose TTM device
    /// must be set, to be placed in one of `places`.
    ///
    /// The driver's part is initialised first; its error is returned as is.
    /// Then more places than a `u32` counts are refused with `EINVAL`. The
    /// object is then attached to the DRM device with its size and the
    /// GEM+TTM object functions, ready to be validated by the device's TTM
    /// device as a device object, with no alignment and not interruptibly
    /// (see [`Self::init_validate`]).
    pub fn new(
        drm: &'d drm::Device<T::Driver>,
        size: usize,
        args: T::Args,
        places: &[Place],
    ) -> (r: Result<Self, Error>)
        requires
            drm.data_spec().ttm_spec() is Some,
        ensures
            r matches Ok(bo) ==> {
                &&& bo.obj_spec() == (TtmBufferObject {
                    base: GemObject { size, has_dev: true, ttm_funcs: true },
                })
                &&& bo.drm_spec() == *drm
                &&& bo.ttm_spec() == drm.data_spec().ttm_spec()->Some_0
                &&& bo.init_args_spec() == (TtmBoInitArgs {
                    bo_type: BufferObjectType::Device.to_u32_spec(),
                    alignment: 0,
                    interruptible: false,
                })
                &&& bo.num_placement_spec() == places@.len()
                &&& bo.placement_spec().len() == places@.len()
                &&& forall|i: int|
                    0 <= i < places@.len() ==> #[trigger] bo.placement_spec()[i] == places@[i]@
                &&& call_ensures(T::new, (drm, size, args), Ok::<T, Error>(bo.inner_spec()))
            },
            places@.len() > u32::MAX ==> r is Err,
            r matches Err(e) ==> call_ensures(T::new, (drm, size, args), Err::<T, Error>(e)) || (
            places@.len() > u32::MAX && e@ == EINVAL && exists|x: T|
                #[trigger] call_ensures(T::new, (drm, size, args), Ok::<T, Error>(x))),
    {
        let inner = T::new(drm, size, args)?;
        let placement = TtmPlacement::new(places)?;
        let ttm = drm.data().ttm_device();
        let obj = TtmBufferObject { base: GemObject { size, has_dev: true, ttm_funcs: true } };
        let init_args = TtmBoInitArgs {
            bo_type: u32::from(BufferObjectType::Device),
            alignment: 0,
            interruptible: false,
        };
        Ok(BufferObject { obj, placement, init_args, inner, drm, ttm })
    }

    /// Takes the status of TTM's validation of the object: a negative status
    /// fails the creation, and the object is released with its error.
    pub fn init_validate(self, status: i32) -> (r: Result<Self, Error>)
        ensures
            r is Ok <==> status >= 0,
            r matches Ok(bo) ==> bo == self,
            r matches Err(e) ==> e@ == errno_code(status),
    {
        match to_result(status) {
            Ok(()) => Ok(self),
            Err(e) => Err(e),
        }
    }

    /// The TTM object.
    pub fn as_raw_ttm(&self) -> (r: &TtmBufferObject)
        ensures
            *r == self.obj_spec(),
    {
        &self.obj
    }

    /// The GEM object.
    pub fn as_raw(&self) -> (r: &GemObject)
        ensures
            *r == self.obj_spec().base,
    {
        &self.obj.base
    }

    /// The placement list handed to TTM.
    pub fn placement(&self) -> (r: &TtmPlacement)
        ensures
            r.num_placement == self.num_placement_spec(),
            r.placement@ == self.placement_spec(),
    {
        &self.placement
    }

    /// The arguments of the object's validation.
    pub fn init_args(&self) -> (r: TtmBoInitArgs)
        ensures
            r == self.init_args_spec(),
    {
        self.init_args
    }

    /// The DRM device the object belongs to.
    pub fn drm(&self) -> (r: &'d drm::Device<T::Driver>)
        ensures
            *r == self.drm_spec(),
    {
        self.drm
    }

    /// The TTM device that validates the object.
    pub fn ttm_device(&self) -> (r: &'d Device<T::Driver>)
        ensures
            *r == self.ttm_spec(),
    {
        self.ttm
    }

    /// The driver's part of the object.
    pub fn inner(&self) -> (r: &T)
        ensures
            *r == self.inner_spec(),
    {
        &self.inner
    }

    /// Whether `raw_bo` is a transfer ("ghost") object that TTM created on its
    /// own: such an object belongs to no DRM device.
    pub fn is_transfer_object(raw_bo: &TtmBufferObject) -> (r: bool)
        ensures
            r == !raw_bo.base.has_dev,
    {
        !raw_bo.base.has_dev
    }
}

impl<'a, T: DriverBufferObject> InitRef<'a, BufferObject<'a, T>, StageAlloc> {
    /// The TTM object of the buffer object being initialised.
    pub fn as_raw_ttm(&self) -> (r: &'a TtmBufferObject)
        ensures
            *r == self.target().obj_spec(),
    {
        self.as_ptr().as_raw_ttm()
    }
}

/// The kind of a TTM buffer object.
#[derive(Debug, Clone, Copy, PartialEq, Eq, Structural)]
pub enum BufferObjectType {
    /// Object of the device (`ttm_bo_type_device`).
    Device,
    /// Object of the kernel (`ttm_bo_type_kernel`).
    Kernel,
    /// Object backed by a scatter-gather table (`ttm_bo_type_sg`).
    ScatterGather,
}

impl BufferObjectType {
    /// The value of the type in `enum ttm_bo_type`.
    pub open spec fn to_u32_spec(self) -> u32 {
        match self {
            BufferObjectType::Device => 0,
            BufferObjectType::Kernel => 1,
            BufferObjectType::ScatterGather => 2,
        }
    }
}

impl From<BufferObjectType> for u32 {
    fn from(value: BufferObjectType) -> (r: Self) {
        match value {
            BufferObjectType::Device => 0,
            BufferObjectType::Kernel => 1,
            BufferObjectType::ScatterGather => 2,
        }
    }
}

impl FromSpecImpl<BufferObjectType> for u32 {
    open spec fn obeys_from_spec() -> bool {
        true
    }

    open spec fn from_spec(value: BufferObjectType) -> u32 {
        value.to_u32_spec()
    }
}

} // verus!
