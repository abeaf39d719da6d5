//! Where a TTM buffer object may be placed: memory types, page frame ranges
//! and placement flags.

use vstd::prelude::*;

use core::ops::Range;

use crate::error::{EINVAL, Error};

verus! {

/// System memory (`TTM_PL_SYSTEM`).
pub const TTM_PL_SYSTEM: u32 = 0;
/// GPU-accessible system memory (`TTM_PL_TT`).
pub const TTM_PL_TT: u32 = 1;
/// Video memory (`TTM_PL_VRAM`).
pub const TTM_PL_VRAM: u32 = 2;
/// The first driver-private memory type (`TTM_PL_PRIV`).
pub const TTM_PL_PRIV: u32 = 3;
/// The number of memory types TTM manages (`TTM_NUM_MEM_TYPES`).
pub const TTM_NUM_MEM_TYPES: u32 = 9;

/// Place the object in physically contiguous memory.
pub const TTM_PL_FLAG_CONTIGUOUS: u32 = 1;
/// Allocate from the top of the memory area.
pub const TTM_PL_FLAG_TOPDOWN: u32 = 2;
/// The placement is only temporary.
pub const TTM_PL_FLAG_TEMPORARY: u32 = 4;
/// The placement is only used when the memory is not under pressure.
pub const TTM_PL_FLAG_DESIRED: u32 = 8;
/// The placement is only used when the memory is under pressure.
pub const TTM_PL_FLAG_FALLBACK: u32 = 16;

/// The memory type a buffer object may be placed in.
///
/// Place types are extensible by each driver, so use a newtype instead of an enum.
#[derive(Debug, Clone, Copy, PartialEq, Eq, Structural)]
pub struct PlaceType(u32);

impl View for PlaceType {
    type V = u32;

    closed spec fn view(&self) -> u32 {
        self.0
    }
}

impl PlaceType {
    /// System memory.
    pub fn system() -> (r: Self)
        ensures
            r@ == TTM_PL_SYSTEM,
    {
        PlaceType(TTM_PL_SYSTEM)
    }

    /// GPU-accessible system memory.
    pub fn tt() -> (r: Self)
        ensures
            r@ == TTM_PL_TT,
    {
        PlaceType(TTM_PL_TT)
    }

    /// Video memory.
    pub fn vram() -> (r: Self)
        ensures
            r@ == TTM_PL_VRAM,
    {
        PlaceType(TTM_PL_VRAM)
    }

    /// The first driver-private memory type.
    pub fn priv_() -> (r: Self)
        ensures
            r@ == TTM_PL_PRIV,
    {
        PlaceType(TTM_PL_PRIV)
    }

    /// The driver-private memory type `V`, which must lie between the first
    /// driver-private type and the number of memory types.
    pub fn driver_place_type<const V: u32>() -> (r: Self)
        requires
            TTM_PL_PRIV <= V < TTM_NUM_MEM_TYPES,
        ensures
            r@ == V,
    {
        PlaceType(V)
    }

    /// The raw memory type.
    fn as_raw(self) -> (r: u32)
        ensures
            r == self@,
    {
        self.0
    }
}

/// A single placement flag.
#[derive(Debug, Clone, Copy, PartialEq, Eq, Structural)]
pub enum PlaceFlag {
    /// Physically contiguous memory.
    Contiguous,
    /// Allocate from the top of the memory area.
    TopDown,
    /// Temporary placement.
    Temporary,
    /// Only when the memory is not under pressure.
    Desired,
    /// Only when the memory is under pressure.
    Fallback,
}

impl PlaceFlag {
    /// The bit of the flag in `ttm_place::flags`.
    pub open spec fn bit(self) -> u32 {
        match self {
            PlaceFlag::Contiguous => TTM_PL_FLAG_CONTIGUOUS,
            PlaceFlag::TopDown => TTM_PL_FLAG_TOPDOWN,
            PlaceFlag::Temporary => TTM_PL_FLAG_TEMPORARY,
            PlaceFlag::Desired => TTM_PL_FLAG_DESIRED,
            PlaceFlag::Fallback => TTM_PL_FLAG_FALLBACK,
        }
    }

    /// Returns the bit of the flag.
    pub fn value(self) -> (r: u32)
        ensures
            r == self.bit(),
            self == PlaceFlag::Contiguous ==> r == TTM_PL_FLAG_CONTIGUOUS,
            self == PlaceFlag::TopDown ==> r == TTM_PL_FLAG_TOPDOWN,
            self == PlaceFlag::Temporary ==> r == TTM_PL_FLAG_TEMPORARY,
            self == PlaceFlag::Desired ==> r == TTM_PL_FLAG_DESIRED,
            self == PlaceFlag::Fallback ==> r == TTM_PL_FLAG_FALLBACK,
    {
        match self {
            PlaceFlag::Contiguous => TTM_PL_FLAG_CONTIGUOUS,
            PlaceFlag::TopDown => TTM_PL_FLAG_TOPDOWN,
            PlaceFlag::Temporary => TTM_PL_FLAG_TEMPORARY,
            PlaceFlag::Desired => TTM_PL_FLAG_DESIRED,
            PlaceFlag::Fallback => TTM_PL_FLAG_FALLBACK,
        }
    }
}

/// Each placement flag is its own TTM flag bit: contiguous is bit 0, top-down
/// bit 1, temporary bit 2, desired bit 3 and fallback bit 4, so two
/// different flags never share a bit and a set of flags tells them apart.
pub proof fn lemma_place_flag_bits(flag: PlaceFlag, other: PlaceFlag)
    ensures
        PlaceFlag::Contiguous.bit() == TTM_PL_FLAG_CONTIGUOUS,
        PlaceFlag::TopDown.bit() == TTM_PL_FLAG_TOPDOWN,
        PlaceFlag::Temporary.bit() == TTM_PL_FLAG_TEMPORARY,
        PlaceFlag::Desired.bit() == TTM_PL_FLAG_DESIRED,
        PlaceFlag::Fallback.bit() == TTM_PL_FLAG_FALLBACK,
        flag.bit() == 1 || flag.bit() == 2 || flag.bit() == 4 || flag.bit() == 8 || flag.bit() == 16,
        flag != other ==> flag.bit() != other.bit(),
{
}

/// The union of all placement flag bits.
pub const PLACE_FLAGS_ALL: u32 = 0x1f;

/// A set of placement flags.
#[derive(Debug, Clone, Copy, PartialEq, Eq, Structural)]
pub struct PlaceFlags(u32);

impl View for PlaceFlags {
    type V = u32;

    closed spec fn view(&self) -> u32 {
        self.0
    }
}

impl PlaceFlags {
    /// The empty set.
    pub fn empty() -> (r: Self)
        ensures
            r@ == 0,
    {
        PlaceFlags(0)
    }

    /// The set holding only `flag`.
    pub fn from_flag(flag: PlaceFlag) -> (r: Self)
        ensures
            r@ == flag.bit(),
    {
        PlaceFlags(flag.value())
    }

    /// The union of `self` and `other`.
    pub fn union(self, other: Self) -> (r: Self)
        ensures
            r@ == self@ | other@,
    {
        PlaceFlags(self.0 | other.0)
    }

    /// The set with `flag` added.
    pub fn with(self, flag: PlaceFlag) -> (r: Self)
        ensures
            r@ == self@ | flag.bit(),
    {
        PlaceFlags(self.0 | flag.value())
    }

    /// Whether `flag` is in the set.
    pub fn contains(self, flag: PlaceFlag) -> (r: bool)
        ensures
            r == (self@ & flag.bit() != 0),
    {
        self.0 & flag.value() != 0
    }

    /// The raw flag bits.
    pub fn bits(self) -> (r: u32)
        ensures
            r == self@,
    {
        self.0
    }
}

/// A range of page frames a buffer object may be placed in; an end of 0
/// means "up to the end of the memory area".
pub struct PfnRange {
    fpfn: u32,
    lpfn: u32,
}

impl PfnRange {
    /// The first frame of the range.
    pub closed spec fn fpfn_spec(&self) -> u32 {
        self.fpfn
    }

    /// The frame after the range, or 0 for "no limit".
    pub closed spec fn lpfn_spec(&self) -> u32 {
        self.lpfn
    }

    /// The whole memory area.
    pub fn all() -> (r: Self)
        ensures
            r.fpfn_spec() == 0,
            r.lpfn_spec() == 0,
    {
        Self { fpfn: 0, lpfn: 0 }
    }

    /// The frames `range.start..range.end`; an empty range is refused with
    /// `EINVAL`.
    pub fn new(range: Range<u32>) -> (r: Result<Self, Error>)
        ensures
            r is Err <==> range.start >= range.end,
            r matches Ok(pr) ==> pr.fpfn_spec() == range.start && pr.lpfn_spec() == range.end,
            r matches Err(e) ==> e@ == EINVAL,
    {
        if range.start >= range.end {
            return Err(Error::einval());
        }
        Ok(Self { fpfn: range.start, lpfn: range.end })
    }

    /// The frames from `fpfn` to the end of the memory area.
    pub fn from_start(fpfn: u32) -> (r: Self)
        ensures
            r.fpfn_spec() == fpfn,
            r.lpfn_spec() == 0,
    {
        Self { fpfn, lpfn: 0 }
    }
}

/// One placement as TTM reads it (`struct ttm_place`).
#[derive(Debug, Clone, Copy, PartialEq, Eq, Structural)]
pub struct TtmPlace {
    /// First frame.
    pub fpfn: u32,
    /// Frame after the last one, 0 for no limit.
    pub lpfn: u32,
    /// Memory type.
    pub mem_type: u32,
    /// Placement flags.
    pub flags: u32,
}

/// A place a buffer object may be put in.
#[derive(Debug, Clone, Copy, PartialEq, Eq, Structural)]
pub struct Place(TtmPlace);

impl View for Place {
    type V = TtmPlace;

    closed spec fn view(&self) -> TtmPlace {
        self.0
    }
}

impl Place {
    /// The place of type `place_type` within `range`, with `flags`.
    pub fn new(range: PfnRange, place_type: PlaceType, flags: PlaceFlags) -> (r: Self)
        ensures
            r@ == (TtmPlace {
                fpfn: range.fpfn_spec(),
                lpfn: range.lpfn_spec(),
                mem_type: place_type@,
                flags: flags@,
            }),
    {
        Self(
            TtmPlace {
                fpfn: range.fpfn,
                lpfn: range.lpfn,
                mem_type: place_type.as_raw(),
                flags: flags.bits(),
            },
        )
    }

    /// The placement as TTM reads it.
    pub fn as_raw(&self) -> (r: TtmPlace)
        ensures
            r == self@,
    {
        self.0
    }
}

/// The list of places handed to TTM (`struct ttm_placement`).
pub struct TtmPlacement {
    /// Number of places.
    pub num_placement: u32,
    /// The places, in order of preference.
    pub placement: Vec<TtmPlace>,
}

impl TtmPlacement {
    /// The placement list for `places`; more places than a `u32` counts are
    /// refused with `EINVAL`.
    pub fn new(places: &[Place]) -> (r: Result<Self, Error>)
        ensures
            r is Err <==> places@.len() > u32::MAX,
            r matches Ok(p) ==> p.num_placement == places@.len() && p.placement@.len()
                == places@.len() && forall|i: int|
                0 <= i < places@.len() ==> #[trigger] p.placement@[i] == places@[i]@,
            r matches Err(e) ==> e@ == EINVAL,
    {
        if places.len() > u32::MAX as usize {
            return Err(Error::einval());
        }
        let num_placement = places.len() as u32;
        let mut placement: Vec<TtmPlace> = Vec::new();
        let mut i: usize = 0;
        while i < places.len()
            invariant
                i <= places@.len(),
                placement@.len() == i,
                forall|j: int| 0 <= j < i ==> #[trigger] placement@[j] == places@[j]@,
            decreases places@.len() - i,
        {
            placement.push(places[i].as_raw());
            i = i + 1;
        }
        Ok(TtmPlacement { num_placement, placement })
    }
}

} // verus!
