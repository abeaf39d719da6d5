# GPU page table entries and TTM bookkeeping, verified

A Verus library with two parts.

* `pagetable` (with `pagetable::ver2`, `mm`, `gpu`, `bits`): the MMU version 2
  page table formats of Turing, Ampere and Ada GPUs. Entries (`Pte`, `Pde`,
  `DualPde`) and the 49-bit virtual address layout are 64-bit words read and
  written through bit fields; every getter and setter states the field it
  reads or writes, and the constructors state the exact word they build. The
  `Mmu` trait carries the level geometry and the bound on page table pages
  needed to map a number of pages.
* `ttm` (with `drm` and `error`): the Rust-side bookkeeping of the DRM TTM
  memory manager. Placements, buffer objects, page table objects and TTM
  devices are modelled by what the Rust side sets up in them. Objects that
  the C side initialises are built in two steps: the library prepares the
  object, and a second call takes the status of the C initialisation.

`app/` holds what talks to hardware or to the kernel's C code: reading and
writing entries through a VRAM window, and the calls into TTM's C functions.
