//! Verified core of the GPU page table entry layouts (MMU version 2) and of the
//! Rust-side bookkeeping of the DRM TTM memory manager.

pub mod bits;
pub mod gpu;
pub mod mm;
pub mod pagetable;
pub mod drm;
pub mod error;
pub mod ttm;
