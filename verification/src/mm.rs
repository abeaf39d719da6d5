//! Address and frame-number types of GPU memory management.

use vstd::prelude::*;

verus! {

/// log2 of the size of a small GPU page (4 KiB).
pub const PAGE_SHIFT: u64 = 12;

/// A physical frame number: an address in units of small pages.
#[derive(Debug, Clone, Copy, PartialEq, Eq, Structural)]
pub struct Pfn(u64);

impl View for Pfn {
    type V = u64;

    closed spec fn view(&self) -> u64 {
        self.0
    }
}

impl Pfn {
    /// Creates a frame number from its raw value.
    pub fn new(raw: u64) -> (r: Self)
        ensures
            r@ == raw,
    {
        Pfn(raw)
    }

    /// Returns the raw value of the frame number.
    pub fn raw(&self) -> (r: u64)
        ensures
            r == self@,
    {
        self.0
    }
}

/// An address in the GPU's video memory (VRAM).
#[derive(Debug, Clone, Copy, PartialEq, Eq, Structural)]
pub struct VramAddress(u64);

impl View for VramAddress {
    type V = u64;

    closed spec fn view(&self) -> u64 {
        self.0
    }
}

/// The VRAM address of the first byte of frame `pfn`.
pub open spec fn pfn_to_vram_address(pfn: u64) -> u64 {
    pfn << PAGE_SHIFT
}

impl VramAddress {
    /// Creates a VRAM address from its raw value.
    pub fn new(raw: u64) -> (r: Self)
        ensures
            r@ == raw,
    {
        VramAddress(raw)
    }

    /// The address of the first byte of the frame `pfn`.
    pub fn from_pfn(pfn: Pfn) -> (r: Self)
        ensures
            r@ == pfn_to_vram_address(pfn@),
    {
        VramAddress(pfn.raw() << PAGE_SHIFT)
    }

    /// Returns the raw value of the address.
    pub fn raw(&self) -> (r: u64)
        ensures
            r == self@,
    {
        self.0
    }
}

/// A GPU virtual address.
#[derive(Debug, Clone, Copy, PartialEq, Eq, Structural)]
pub struct VirtualAddress(u64);

impl View for VirtualAddress {
    type V = u64;

    closed spec fn view(&self) -> u64 {
        self.0
    }
}

impl VirtualAddress {
    /// Creates a virtual address from its raw value.
    pub fn new(raw: u64) -> (r: Self)
        ensures
            r@ == raw,
    {
        VirtualAddress(raw)
    }

    /// Returns the raw value of the address.
    pub fn raw_u64(&self) -> (r: u64)
        ensures
            r == self@,
    {
        self.0
    }
}

} // verus!
