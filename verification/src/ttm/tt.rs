//! TTM page table objects (`struct ttm_tt`).

use vstd::prelude::*;

use crate::error::{Error, errno_code, to_result};
use crate::ttm::{InitRef, StageAlloc};
use crate::ttm::bo::DriverBufferObject;
use crate::ttm::driver::{BufferObjectForDriver, DriverTTM};

verus! {

/// The driver's part of a TTM page table object.
pub trait DriverTt: Sized {
    /// The driver the object belongs to.
    type Driver: DriverTTM<BufferObject: DriverBufferObject>;

    /// Initialises the driver's part for the buffer object `bo`, which is
    /// still being set up.
    fn new<'a>(bo: InitRef<'a, BufferObjectForDriver<'a, Self::Driver>, StageAlloc>) -> Result<
        Self,
        Error,
    >;
}

/// The arguments the Rust side hands to `ttm_tt_init` for a page table
/// object.
#[derive(Debug, Clone, Copy, PartialEq, Eq, Structural)]
pub struct TtmTt {
    /// Page flags.
    pub page_flags: u32,
    /// Caching mode (`ttm_cached` is 0).
    pub caching: u32,
    /// Extra pages to allocate.
    pub extra_pages: u64,
}

/// A TTM page table object of a driver.
pub struct Tt<T: DriverTt> {
    obj: TtmTt,
    inner: T,
}

impl<T: DriverTt> Tt<T> {
    /// The TTM part of the object.
    pub closed spec fn obj_spec(&self) -> TtmTt {
        self.obj
    }

    /// The driver's part of the object.
    pub closed spec fn inner_spec(&self) -> T {
        self.inner
    }

    /// Creates a page table object for the buffer object `bo`: the driver's
    /// part is initialised first, and its error is returned as is; the TTM
    /// part is set up for cached pages, with no page flags and no extra pages,
    /// ready for TTM's initialisation (see [`Self::init`]).
    pub fn new<'a>(bo: InitRef<'a, BufferObjectForDriver<'a, T::Driver>, StageAlloc>) -> (r: Result<
        Self,
        Error,
    >)
        ensures
            r matches Ok(tt) ==> call_ensures(T::new, (bo,), Ok::<T, Error>(tt.inner_spec()))
                && tt.obj_spec() == (TtmTt { page_flags: 0, caching: 0, extra_pages: 0 }),
            r matches Err(e) ==> call_ensures(T::new, (bo,), Err::<T, Error>(e)),
    {
        let inner = T::new(bo)?;
        Ok(Tt { obj: TtmTt { page_flags: 0, caching: 0, extra_pages: 0 }, inner })
    }

    /// Takes the status of TTM's initialisation of the object: a negative
    /// status fails the creation, and the object is released with its error.
    pub fn init(self, status: i32) -> (r: Result<Self, Error>)
        ensures
            r is Ok <==> status >= 0,
            r matches Ok(tt) ==> tt == self,
            r matches Err(e) ==> e@ == errno_code(status),
    {
        match to_result(status) {
            Ok(()) => Ok(self),
            Err(e) => Err(e),
        }
    }

    /// The TTM part of the object.
    pub fn as_raw(&self) -> (r: &TtmTt)
        ensures
            *r == self.obj_spec(),
    {
        &self.obj
    }
}

} // verus!
