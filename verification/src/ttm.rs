//! Rust-side bookkeeping of the DRM TTM memory manager.
//!
//! TTM keeps its objects in C structures; here each object carries a plain
//! record of what the Rust side sets up in it and reads back from it. Where
//! the C side performs an initialisation, the object is built in two steps:
//! the Rust side prepares it, and a second call takes the status the C
//! initialisation returned and decides whether the object lives on.

pub mod bo;
pub mod device;
pub mod driver;
pub mod placement;
pub mod tt;

use vstd::prelude::*;

use core::marker::PhantomData;

pub use self::bo::{
    BufferObject, BufferObjectType, DriverBufferObject, GemObject, TtmBoInitArgs, TtmBufferObject,
};
pub use self::device::{Device, TtmBoRef, TtmDeviceFuncs};
pub use self::driver::{BufferObjectForDriver, DriverTTM, TtForDriver, WithTTMData};
pub use self::placement::{Place, PlaceFlag, PlaceFlags, PfnRange, PlaceType, TtmPlace, TtmPlacement};
pub use self::tt::{DriverTt, Tt, TtmTt};

verus! {

/// The initialisation stage of an object whose memory is allocated but whose
/// TTM part is not set up yet.
pub struct StageAlloc;

/// A reference to an object that is still being initialised; `Stage` names
/// how far, and only accessors valid at that stage are offered.
pub struct InitRef<'a, T, Stage> {
    ptr: &'a T,
    _stage: PhantomData<Stage>,
}

impl<'a, T, Stage> Copy for InitRef<'a, T, Stage> {

}

impl<'a, T, Stage> Clone for InitRef<'a, T, Stage> {
    fn clone(&self) -> (r: Self)
        ensures
            r == *self,
    {
        InitRef { ptr: self.ptr, _stage: PhantomData }
    }
}

impl<'a, T, Stage> InitRef<'a, T, Stage> {
    /// The object referred to.
    pub closed spec fn target(&self) -> T {
        *self.ptr
    }

    /// The reference to `ptr` at initialisation stage `Stage`.
    pub closed spec fn new_spec(ptr: &'a T) -> Self {
        InitRef { ptr, _stage: PhantomData }
    }

    /// Refers to `ptr` as an object at initialisation stage `Stage`.
    pub(crate) fn new(ptr: &'a T) -> (r: Self)
        ensures
            r == Self::new_spec(ptr),
            r.target() == *ptr,
    {
        InitRef { ptr, _stage: PhantomData }
    }

    /// The object referred to.
    pub fn as_ptr(&self) -> (r: &'a T)
        ensures
            *r == self.target(),
    {
        self.ptr
    }
}

/// An `InitRef` made from a reference refers to that object, and so does
/// every copy of it: `as_ptr` gives back the reference it was made from.
pub proof fn lemma_init_ref_as_ptr<'a, T, Stage>(ptr: &'a T, copy: InitRef<'a, T, Stage>)
    requires
        copy == InitRef::<'a, T, Stage>::new_spec(ptr),
    ensures
        InitRef::<'a, T, Stage>::new_spec(ptr).target() == *ptr,
        copy.target() == *ptr,
{
}

} // verus!
