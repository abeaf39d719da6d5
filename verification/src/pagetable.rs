//! Page table types shared by the GPU MMU versions: the level hierarchy, the
//! memory apertures of entries, and the operations every MMU version offers on
//! its entries.

pub mod aperture_pde;
pub mod aperture_pte;
pub mod ver2;

use vstd::prelude::*;
use vstd::std_specs::convert::FromSpecImpl;

use crate::gpu::Architecture;
pub use self::aperture_pde::AperturePde;
pub use self::aperture_pte::AperturePte;
use crate::mm::{Pfn, VirtualAddress, VramAddress, pfn_to_vram_address};

verus! {

/// Extracts the page table index at a given level from a virtual address.
pub trait VaLevelIndex {
    /// The index selected at `level`.
    spec fn level_index_spec(&self, level: PageTableLevel) -> u64;

    /// Returns the page table index at `level` for this virtual address.
    fn level_index(&self, level: PageTableLevel) -> (r: u64)
        ensures
            r == self.level_index_spec(level),
    ;
}

/// `ceil(n / d)`, as `usize::div_ceil` computes it.
pub open spec fn ceil_div(n: nat, d: nat) -> nat {
    if d == 0 {
        0
    } else if n % d == 0 {
        n / d
    } else {
        n / d + 1
    }
}

/// `n.div_ceil(d)` for `d > 0`.
pub fn div_ceil(n: usize, d: usize) -> (r: usize)
    requires
        d > 0,
    ensures
        r == ceil_div(n as nat, d as nat),
{
    let q = n / d;
    if n % d == 0 {
        q
    } else {
        proof {
            assert(q * d <= n) by (nonlinear_arith)
                requires
                    q == n / d,
                    d > 0,
            ;
            assert(q < n) by (nonlinear_arith)
                requires
                    q == n / d,
                    d > 0,
                    n % d != 0,
                    q * d <= n,
            ;
        }
        q + 1
    }
}

/// The page table pages needed at the directory levels `levels`, walked from
/// the last one to the first, when `pages` tables are needed at the level
/// below them and a table at level `l` holds `epp(l)` entries.
pub open spec fn pde_pages(
    pages: nat,
    levels: Seq<PageTableLevel>,
    epp: spec_fn(PageTableLevel) -> nat,
) -> nat
    decreases levels.len(),
{
    if levels.len() == 0 {
        0
    } else {
        let up = ceil_div(pages, epp(levels.last()));
        up + pde_pages(up, levels.drop_last(), epp)
    }
}

/// The upper bound on page table pages needed to map `num_virt_pages` pages:
/// the tables at the `PTE` level `pte_level`, then the directories above them
/// (`pde_levels`, from the root down), level by level up to the root.
pub open spec fn pt_pages_bound(
    num_virt_pages: nat,
    pte_level: PageTableLevel,
    pde_levels: Seq<PageTableLevel>,
    epp: spec_fn(PageTableLevel) -> nat,
) -> nat {
    let pte_pages = ceil_div(num_virt_pages, epp(pte_level));
    pte_pages + pde_pages(pte_pages, pde_levels, epp)
}

/// `ceil_div` grows with its dividend.
pub proof fn lemma_ceil_div_monotonic(n1: nat, n2: nat, d: nat)
    requires
        n1 <= n2,
    ensures
        ceil_div(n1, d) <= ceil_div(n2, d),
{
    if d > 0 {
        assert(n1 / d <= n2 / d) by (nonlinear_arith)
            requires
                n1 <= n2,
                d > 0,
        ;
        if n1 % d != 0 && n2 % d == 0 {
            assert(n1 / d < n2 / d) by (nonlinear_arith)
                requires
                    n1 <= n2,
                    d > 0,
                    n1 % d != 0,
                    n2 % d == 0,
            ;
        }
    }
}

/// `ceil_div(n, d)` is the least `c` with `c * d >= n`.
pub proof fn lemma_ceil_div_is_least(n: nat, d: nat)
    requires
        d > 0,
    ensures
        ceil_div(n, d) * d >= n,
        ceil_div(n, d) > 0 ==> (ceil_div(n, d) - 1) * d < n,
{
    let q = n / d;
    let r = n % d;
    assert(n == q * d + r && r < d) by (nonlinear_arith)
        requires
            d > 0,
            q == n / d,
            r == n % d,
    ;
    if r == 0 {
        assert(q > 0 ==> (q - 1) * d < n) by (nonlinear_arith)
            requires
                n == q * d,
                d > 0,
        ;
    } else {
        assert((q + 1) * d >= n && q * d < n) by (nonlinear_arith)
            requires
                n == q * d + r,
                0 < r < d,
        ;
    }
}

/// Any `c` with `c * d >= n` whose predecessor falls short is `ceil_div(n, d)`.
proof fn lemma_ceil_div_unique(n: nat, d: nat, c: nat)
    requires
        d > 0,
        c * d >= n,
        c > 0 ==> (c - 1) * d < n,
    ensures
        c == ceil_div(n, d),
{
    lemma_ceil_div_is_least(n, d);
    let c0 = ceil_div(n, d);
    if c > c0 {
        assert((c - 1) * d >= c0 * d) by (nonlinear_arith)
            requires
                c - 1 >= c0,
                d > 0,
        ;
    } else if c < c0 {
        assert(c * d <= (c0 - 1) * d) by (nonlinear_arith)
            requires
                c <= c0 - 1,
                d > 0,
        ;
    }
}

/// Rounding up twice is rounding up once by the product:
/// `ceil(ceil(n / a) / b) == ceil(n / (a * b))`.
pub proof fn lemma_ceil_div_compose(n: nat, a: nat, b: nat)
    requires
        a > 0,
        b > 0,
    ensures
        ceil_div(ceil_div(n, a), b) == ceil_div(n, a * b),
{
    let q = ceil_div(n, a);
    let m = ceil_div(q, b);
    lemma_ceil_div_is_least(n, a);
    lemma_ceil_div_is_least(q, b);
    assert(a * b > 0) by (nonlinear_arith)
        requires
            a > 0,
            b > 0,
    ;
    assert(m * (a * b) >= n) by (nonlinear_arith)
        requires
            m * b >= q,
            q * a >= n,
            a > 0,
    ;
    if m > 0 {
        assert(q > 0) by {
            if q == 0 {
                assert(ceil_div(0, b) == 0);
            }
        }
        assert((m - 1) * (a * b) < n) by (nonlinear_arith)
            requires
                (m - 1) * b < q,
                (q - 1) * a < n,
                q > 0,
                m > 0,
                a > 0,
        ;
    }
    lemma_ceil_div_unique(n, a * b, m);
}

/// The directory pages needed grow with the pages needed below them.
pub proof fn lemma_pde_pages_monotonic(
    p1: nat,
    p2: nat,
    levels: Seq<PageTableLevel>,
    epp: spec_fn(PageTableLevel) -> nat,
)
    requires
        p1 <= p2,
    ensures
        pde_pages(p1, levels, epp) <= pde_pages(p2, levels, epp),
    decreases levels.len(),
{
    if levels.len() > 0 {
        let d = epp(levels.last());
        lemma_ceil_div_monotonic(p1, p2, d);
        lemma_pde_pages_monotonic(ceil_div(p1, d), ceil_div(p2, d), levels.drop_last(), epp);
    }
}

/// Mapping more pages never needs fewer page table pages: the bound that
/// `Mmu::pt_pages_upper_bound` computes grows with the number of pages.
pub proof fn lemma_pt_pages_bound_monotonic(
    n1: nat,
    n2: nat,
    pte_level: PageTableLevel,
    pde_levels: Seq<PageTableLevel>,
    epp: spec_fn(PageTableLevel) -> nat,
)
    requires
        n1 <= n2,
    ensures
        pt_pages_bound(n1, pte_level, pde_levels, epp) <= pt_pages_bound(
            n2,
            pte_level,
            pde_levels,
            epp,
        ),
{
    let d = epp(pte_level);
    lemma_ceil_div_monotonic(n1, n2, d);
    lemma_pde_pages_monotonic(ceil_div(n1, d), ceil_div(n2, d), pde_levels, epp);
}

/// MMU-specific page table operations.
pub trait Mmu: Sized {
    /// Virtual address layout type for this MMU.
    type Va: VaLevelIndex;
    /// Page table entry type for this MMU.
    type Pte: PteOps;
    /// Page directory entry type for this MMU.
    type Pde: PdeOps;
    /// Dual page directory entry type for this MMU.
    type DualPde: DualPdeOps;

    /// `PDE` levels (excluding the `PTE` level), from the root down.
    spec fn pde_levels_spec() -> Seq<PageTableLevel>;

    /// The `PTE` level.
    spec fn pte_level_spec() -> PageTableLevel;

    /// The dual `PDE` level (128-bit entries).
    spec fn dual_pde_level_spec() -> PageTableLevel;

    /// The number of entries in a page table page at `level`.
    spec fn entries_per_page_spec(level: PageTableLevel) -> usize;

    /// The MMU-specific view of a virtual address.
    spec fn va_spec(va: VirtualAddress) -> Self::Va;

    /// Returns the `PDE` levels, from the root down.
    fn pde_levels() -> (r: Vec<PageTableLevel>)
        ensures
            r@ == Self::pde_levels_spec(),
    ;

    /// Returns the `PTE` level.
    fn pte_level() -> (r: PageTableLevel)
        ensures
            r == Self::pte_level_spec(),
    ;

    /// Returns the dual `PDE` level.
    fn dual_pde_level() -> (r: PageTableLevel)
        ensures
            r == Self::dual_pde_level_spec(),
    ;

    /// Creates the MMU-specific virtual address view.
    fn va(va: VirtualAddress) -> (r: Self::Va)
        ensures
            r == Self::va_spec(va),
    ;

    /// Returns the number of entries per page at `level`; never zero.
    fn entries_per_page(level: PageTableLevel) -> (r: usize)
        ensures
            r == Self::entries_per_page_spec(level),
            r > 0,
    ;

    /// Returns the entry size in bytes for `level`: 16 at the dual `PDE`
    /// level, 8 elsewhere.
    fn entry_size(level: PageTableLevel) -> (r: usize)
        ensures
            r == (if level == Self::dual_pde_level_spec() {
                16usize
            } else {
                8usize
            }),
    {
        if level == Self::dual_pde_level() {
            16
        } else {
            8
        }
    }

    /// Returns the number of `PDE` levels for this MMU.
    fn pde_level_count() -> (r: usize)
        ensures
            r == Self::pde_levels_spec().len(),
    {
        Self::pde_levels().len()
    }

    /// Computes an upper bound on the page table pages needed to map
    /// `num_virt_pages` pages.
    fn pt_pages_upper_bound(num_virt_pages: usize) -> (r: usize)
        requires
            pt_pages_bound(
                num_virt_pages as nat,
                Self::pte_level_spec(),
                Self::pde_levels_spec(),
                |l: PageTableLevel| Self::entries_per_page_spec(l) as nat,
            ) <= usize::MAX,
        ensures
            r == pt_pages_bound(
                num_virt_pages as nat,
                Self::pte_level_spec(),
                Self::pde_levels_spec(),
                |l: PageTableLevel| Self::entries_per_page_spec(l) as nat,
            ),
    {
        let levels = Self::pde_levels();
        let pte_epp = Self::entries_per_page(Self::pte_level());
        let mut pages_at_level = div_ceil(num_virt_pages, pte_epp);
        let mut total: usize = pages_at_level;
        let mut i: usize = levels.len();
        proof {
            assert(levels@.take(i as int) =~= levels@);
        }
        while i > 0
            invariant
                i <= levels.len(),
                levels@ == Self::pde_levels_spec(),
                total + pde_pages(
                    pages_at_level as nat,
                    levels@.take(i as int),
                    |l: PageTableLevel| Self::entries_per_page_spec(l) as nat,
                ) == pt_pages_bound(
                    num_virt_pages as nat,
                    Self::pte_level_spec(),
                    Self::pde_levels_spec(),
                    |l: PageTableLevel| Self::entries_per_page_spec(l) as nat,
                ),
                pt_pages_bound(
                    num_virt_pages as nat,
                    Self::pte_level_spec(),
                    Self::pde_levels_spec(),
                    |l: PageTableLevel| Self::entries_per_page_spec(l) as nat,
                ) <= usize::MAX,
            decreases i,
        {
            let level = levels[i - 1];
            let epp = Self::entries_per_page(level);
            proof {
                let s = levels@.take(i as int);
                assert(s.last() == level);
                assert(s.drop_last() =~= levels@.take(i - 1));
            }
            pages_at_level = div_ceil(pages_at_level, epp);
            total = total + pages_at_level;
            i = i - 1;
        }
        proof {
            assert(levels@.take(0).len() == 0);
        }
        total
    }
}

/// Common `PTE` operations shared by MMU versions.
pub trait PteOps: Sized {
    /// The raw 64-bit value of the entry.
    spec fn raw_spec(&self) -> u64;

    /// Whether the entry maps a page.
    spec fn is_valid_spec(&self) -> bool;

    /// Whether the mapped page may be written.
    spec fn is_writable_spec(&self) -> bool;

    /// The frame number the entry points to.
    spec fn frame_number_spec(&self) -> u64;

    /// The largest VRAM frame number an entry can hold.
    spec fn vram_frame_max() -> u64;

    /// Creates a `PTE` from a raw `u64` value.
    fn new(val: u64) -> (r: Self)
        ensures
            r.raw_spec() == val,
    ;

    /// Creates an invalid `PTE`.
    fn invalid() -> (r: Self)
        ensures
            !r.is_valid_spec(),
    ;

    /// Creates a valid VRAM-backed `PTE`.
    fn new_vram(pfn: Pfn, writable: bool) -> (r: Self)
        ensures
            r.is_valid_spec(),
            r.is_writable_spec() == writable,
            pfn@ <= Self::vram_frame_max() ==> r.frame_number_spec() == pfn@,
    ;

    /// Returns whether this `PTE` is valid.
    fn is_valid(&self) -> (r: bool)
        ensures
            r == self.is_valid_spec(),
    ;

    /// Returns the physical frame number.
    fn frame_number(&self) -> (r: Pfn)
        ensures
            r@ == self.frame_number_spec(),
    ;

    /// Returns the raw `u64` value.
    fn raw_u64(&self) -> (r: u64)
        ensures
            r == self.raw_spec(),
    ;
}

/// Common `PDE` operations shared by MMU versions.
pub trait PdeOps: Sized {
    /// The raw 64-bit value of the entry.
    spec fn raw_spec(&self) -> u64;

    /// Whether the entry points to a next-level table.
    spec fn is_valid_spec(&self) -> bool;

    /// The memory aperture of the entry.
    spec fn aperture_spec(&self) -> AperturePde;

    /// The frame number of the next-level table.
    spec fn table_frame_spec(&self) -> u64;

    /// The largest VRAM frame number an entry can hold.
    spec fn vram_frame_max() -> u64;

    /// Creates a `PDE` from a raw `u64` value.
    fn new(val: u64) -> (r: Self)
        ensures
            r.raw_spec() == val,
    ;

    /// Creates a valid VRAM-backed `PDE`.
    fn new_vram(table_pfn: Pfn) -> (r: Self)
        ensures
            r.is_valid_spec(),
            r.aperture_spec() == AperturePde::VideoMemory,
            table_pfn@ <= Self::vram_frame_max() ==> r.table_frame_spec() == table_pfn@,
    ;

    /// Returns whether this `PDE` is valid.
    fn is_valid(&self) -> (r: bool)
        ensures
            r == self.is_valid_spec(),
    ;

    /// Returns the memory aperture of this `PDE`.
    fn aperture(&self) -> (r: AperturePde)
        ensures
            r == self.aperture_spec(),
    ;

    /// Returns the frame number of the next-level table.
    fn table_frame(&self) -> (r: Pfn)
        ensures
            r@ == self.table_frame_spec(),
    ;

    /// Returns the VRAM address of the next-level table, which must lie in
    /// VRAM.
    fn table_vram_address(&self) -> (r: VramAddress)
        requires
            self.aperture_spec() == AperturePde::VideoMemory,
        ensures
            r@ == pfn_to_vram_address(self.table_frame_spec()),
    ;

    /// Returns the raw `u64` value.
    fn raw_u64(&self) -> (r: u64)
        ensures
            r == self.raw_spec(),
    ;
}

/// Common dual `PDE` operations shared by MMU versions.
pub trait DualPdeOps: Sized {
    /// The raw value of the big (large page table) word.
    spec fn big_raw_spec(&self) -> u64;

    /// The raw value of the small (small page table) word.
    spec fn small_raw_spec(&self) -> u64;

    /// Whether the small page table pointer is valid.
    spec fn has_small_spec(&self) -> bool;

    /// Whether the big page table pointer is valid.
    spec fn has_big_spec(&self) -> bool;

    /// Whether the small page table lies in VRAM.
    spec fn small_in_vram_spec(&self) -> bool;

    /// The frame number of the small page table.
    spec fn small_pfn_spec(&self) -> u64;

    /// The largest VRAM frame number an entry can hold.
    spec fn vram_frame_max() -> u64;

    /// Creates a dual `PDE` from raw 128-bit value.
    fn new(big: u64, small: u64) -> (r: Self)
        ensures
            r.big_raw_spec() == big,
            r.small_raw_spec() == small,
    ;

    /// Creates a dual `PDE` with only the small page table pointer set.
    fn new_small(table_pfn: Pfn) -> (r: Self)
        ensures
            r.has_small_spec(),
            !r.has_big_spec(),
            r.small_in_vram_spec(),
            table_pfn@ <= Self::vram_frame_max() ==> r.small_pfn_spec() == table_pfn@,
    ;

    /// Returns whether the small page table pointer is valid.
    fn has_small(&self) -> (r: bool)
        ensures
            r == self.has_small_spec(),
    ;

    /// Returns whether the big page table pointer is valid.
    fn has_big(&self) -> (r: bool)
        ensures
            r == self.has_big_spec(),
    ;

    /// Returns the frame number of the small page table pointer.
    fn small_pfn(&self) -> (r: Pfn)
        ensures
            r@ == self.small_pfn_spec(),
    ;

    /// Returns the VRAM address of the small page table, which must lie in
    /// VRAM.
    fn small_vram_address(&self) -> (r: VramAddress)
        requires
            self.small_in_vram_spec(),
        ensures
            r@ == pfn_to_vram_address(self.small_pfn_spec()),
    ;

    /// Returns the raw `u64` value of the big word.
    fn big_raw_u64(&self) -> (r: u64)
        ensures
            r == self.big_raw_spec(),
    ;

    /// Returns the raw `u64` value of the small word.
    fn small_raw_u64(&self) -> (r: u64)
        ensures
            r == self.small_raw_spec(),
    ;
}

/// MMU version enumeration.
#[derive(Debug, Clone, Copy, PartialEq, Eq, Structural)]
pub enum MmuVersion {
    /// MMU v2 for Turing/Ampere/Ada.
    V2,
    /// MMU v3 for Hopper and later.
    V3,
}

impl MmuVersion {
    /// The MMU version used by GPUs of architecture `arch`.
    pub open spec fn of_architecture(arch: Architecture) -> MmuVersion {
        match arch {
            Architecture::Turing | Architecture::Ampere | Architecture::Ada => MmuVersion::V2,
        }
    }
}

impl From<Architecture> for MmuVersion {
    fn from(arch: Architecture) -> (r: Self) {
        match arch {
            Architecture::Turing | Architecture::Ampere | Architecture::Ada => Self::V2,
        }
    }
}

impl FromSpecImpl<Architecture> for MmuVersion {
    open spec fn obeys_from_spec() -> bool {
        true
    }

    open spec fn from_spec(arch: Architecture) -> MmuVersion {
        MmuVersion::of_architecture(arch)
    }
}

/// Page Table Level hierarchy for MMU v2/v3.
#[derive(Debug, Clone, Copy, PartialEq, Eq, Structural)]
pub enum PageTableLevel {
    /// Level 0 - Page Directory Base (root).
    Pdb,
    /// Level 1 - Intermediate page directory.
    L1,
    /// Level 2 - Intermediate page directory.
    L2,
    /// Level 3 - Intermediate page directory or dual PDE (version-dependent).
    L3,
    /// Level 4 - PTE level for v2, intermediate page directory for v3.
    L4,
    /// Level 5 - PTE level used for MMU v3 only.
    L5,
}

/// Converting an aperture to its field value and back gives the same
/// aperture; a field value below 4 survives the trip the other way.
pub proof fn lemma_aperture_pte_round_trip(a: AperturePte, val: u8)
    ensures
        AperturePte::from_u8_spec(a.to_u8_spec()) == a,
        val < 4 ==> AperturePte::from_u8_spec(val).to_u8_spec() == val,
{
}

/// Converting an aperture to its field value and back gives the same
/// aperture; field values 1 to 3 survive the trip the other way, and every
/// other value reads as `Invalid`.
pub proof fn lemma_aperture_pde_round_trip(a: AperturePde, val: u8)
    ensures
        AperturePde::from_u8_spec(a.to_u8_spec()) == a,
        1 <= val < 4 ==> AperturePde::from_u8_spec(val).to_u8_spec() == val,
        !(1 <= val < 4) ==> AperturePde::from_u8_spec(val) == AperturePde::Invalid,
{
}

} // verus!
