//! MMU v2 page table types for Turing, Ampere and Ada GPUs.
//!
//! Bit field layouts follow the `dev_mmu.h` reference for the TU102.

use vstd::prelude::*;

use super::{
    AperturePde, AperturePte, DualPdeOps, Mmu, PageTableLevel, PdeOps, PteOps, VaLevelIndex,
    ceil_div, lemma_ceil_div_compose, pde_pages, pt_pages_bound,
};
use crate::bits::{field_fits, field_max, field_of, get_field, set_field, with_field};
use crate::mm::{Pfn, VirtualAddress, VramAddress, pfn_to_vram_address};

verus! {

// Virtual address fields.
/// Page offset, bits 11:0.
pub const VA_OFFSET_MASK: u64 = 0xfff;
/// `PT` index, bits 20:12.
pub const VA_PT_IDX_MASK: u64 = 0x1f_f000;
/// `PDE0` index, bits 28:21.
pub const VA_PDE0_IDX_MASK: u64 = 0x1fe0_0000;
/// `PDE1` index, bits 37:29.
pub const VA_PDE1_IDX_MASK: u64 = 0x3f_e000_0000;
/// `PDE2` index, bits 46:38.
pub const VA_PDE2_IDX_MASK: u64 = 0x7fc0_0000_0000;
/// `PDE3` index, bits 48:47.
pub const VA_PDE3_IDX_MASK: u64 = 0x1_8000_0000_0000;

// Fields shared by `PTE`s and `PDE`s.
/// Aperture, bits 2:1.
pub const APERTURE_MASK: u64 = 0x6;
/// Volatile (bypass L2 cache), bit 3.
pub const VOLATILE_MASK: u64 = 0x8;
/// Frame number for system memory, bits 53:8.
pub const FRAME_SYS_MASK: u64 = 0x3f_ffff_ffff_ff00;
/// Frame number for video memory, bits 32:8.
pub const FRAME_VID_MASK: u64 = 0x1_ffff_ff00;
/// Peer GPU ID, bits 35:33.
pub const PEER_ID_MASK: u64 = 0xe_0000_0000;
/// The largest frame number the video memory frame field holds.
pub const FRAME_VID_MAX: u64 = 0x1ff_ffff;

// `PTE`-only fields.
/// Valid, bit 0.
pub const PTE_VALID_MASK: u64 = 0x1;
/// Encryption enabled, bit 4.
pub const PTE_ENCRYPTED_MASK: u64 = 0x10;
/// Privileged access only, bit 5.
pub const PTE_PRIVILEGE_MASK: u64 = 0x20;
/// Write protection, bit 6.
pub const PTE_READ_ONLY_MASK: u64 = 0x40;
/// Atomic operations disabled, bit 7.
pub const PTE_ATOMIC_DISABLE_MASK: u64 = 0x80;
/// Compression tag line, bits 53:36.
pub const PTE_COMPTAGLINE_MASK: u64 = 0x3f_fff0_0000_0000;
/// Surface kind, bits 63:56.
pub const PTE_KIND_MASK: u64 = 0xff00_0000_0000_0000;

// `PDE`-only fields.
/// Valid bit with inverted logic (0 means valid), bit 0.
pub const PDE_VALID_INVERTED_MASK: u64 = 0x1;
/// Disable Address Translation Services, bit 5.
pub const PDE_NO_ATS_MASK: u64 = 0x20;

/// MMU v2 49-bit virtual address layout.
#[derive(Debug, Clone, Copy, PartialEq, Eq, Structural)]
pub struct VirtualAddressV2(u64);

impl View for VirtualAddressV2 {
    type V = u64;

    closed spec fn view(&self) -> u64 {
        self.0
    }
}

/// The table index that virtual address `va` selects at `level`.
pub open spec fn va_level_index(va: u64, level: PageTableLevel) -> u64 {
    match level {
        PageTableLevel::Pdb => field_of(va, VA_PDE3_IDX_MASK, 47),
        PageTableLevel::L1 => field_of(va, VA_PDE2_IDX_MASK, 38),
        PageTableLevel::L2 => field_of(va, VA_PDE1_IDX_MASK, 29),
        PageTableLevel::L3 => field_of(va, VA_PDE0_IDX_MASK, 21),
        PageTableLevel::L4 => field_of(va, VA_PT_IDX_MASK, 12),
        PageTableLevel::L5 => 0,
    }
}

impl VirtualAddressV2 {
    /// Create a [`VirtualAddressV2`] from a [`VirtualAddress`].
    pub fn new(va: VirtualAddress) -> (r: Self)
        ensures
            r@ == va@,
    {
        VirtualAddressV2(va.raw_u64())
    }

    /// Page offset [11:0].
    pub fn offset(self) -> (r: u64)
        ensures
            r == field_of(self@, VA_OFFSET_MASK, 0),
    {
        get_field(self.0, VA_OFFSET_MASK, 0)
    }

    /// PT index [20:12].
    pub fn pt_idx(self) -> (r: u64)
        ensures
            r == field_of(self@, VA_PT_IDX_MASK, 12),
    {
        get_field(self.0, VA_PT_IDX_MASK, 12)
    }

    /// PDE0 index [28:21].
    pub fn pde0_idx(self) -> (r: u64)
        ensures
            r == field_of(self@, VA_PDE0_IDX_MASK, 21),
    {
        get_field(self.0, VA_PDE0_IDX_MASK, 21)
    }

    /// PDE1 index [37:29].
    pub fn pde1_idx(self) -> (r: u64)
        ensures
            r == field_of(self@, VA_PDE1_IDX_MASK, 29),
    {
        get_field(self.0, VA_PDE1_IDX_MASK, 29)
    }

    /// PDE2 index [46:38].
    pub fn pde2_idx(self) -> (r: u64)
        ensures
            r == field_of(self@, VA_PDE2_IDX_MASK, 38),
    {
        get_field(self.0, VA_PDE2_IDX_MASK, 38)
    }

    /// PDE3 index [48:47].
    pub fn pde3_idx(self) -> (r: u64)
        ensures
            r == field_of(self@, VA_PDE3_IDX_MASK, 47),
    {
        get_field(self.0, VA_PDE3_IDX_MASK, 47)
    }
}

impl VaLevelIndex for VirtualAddressV2 {
    open spec fn level_index_spec(&self, level: PageTableLevel) -> u64 {
        va_level_index(self@, level)
    }

    fn level_index(&self, level: PageTableLevel) -> (r: u64) {
        match level {
            PageTableLevel::Pdb => self.pde3_idx(),
            PageTableLevel::L1 => self.pde2_idx(),
            PageTableLevel::L2 => self.pde1_idx(),
            PageTableLevel::L3 => self.pde0_idx(),
            PageTableLevel::L4 => self.pt_idx(),
            PageTableLevel::L5 => 0,
        }
    }
}

/// MMU v2 marker type.
pub struct MmuV2;

/// The number of entries of a page table page at `level` under MMU v2.
pub open spec fn v2_entries_per_page(level: PageTableLevel) -> usize {
    match level {
        PageTableLevel::Pdb => 4,
        PageTableLevel::L3 => 256,
        _ => 512,
    }
}

impl Mmu for MmuV2 {
    type Va = VirtualAddressV2;
    type Pte = Pte;
    type Pde = Pde;
    type DualPde = DualPde;

    open spec fn pde_levels_spec() -> Seq<PageTableLevel> {
        seq![PageTableLevel::Pdb, PageTableLevel::L1, PageTableLevel::L2, PageTableLevel::L3]
    }

    open spec fn pte_level_spec() -> PageTableLevel {
        PageTableLevel::L4
    }

    open spec fn dual_pde_level_spec() -> PageTableLevel {
        PageTableLevel::L3
    }

    open spec fn entries_per_page_spec(level: PageTableLevel) -> usize {
        v2_entries_per_page(level)
    }

    closed spec fn va_spec(va: VirtualAddress) -> VirtualAddressV2 {
        VirtualAddressV2(va@)
    }

    fn pde_levels() -> (r: Vec<PageTableLevel>) {
        let r = vec![PageTableLevel::Pdb, PageTableLevel::L1, PageTableLevel::L2, PageTableLevel::L3];
        assert(r@ =~= Self::pde_levels_spec());
        r
    }

    fn pte_level() -> (r: PageTableLevel) {
        PageTableLevel::L4
    }

    fn dual_pde_level() -> (r: PageTableLevel) {
        PageTableLevel::L3
    }

    fn va(va: VirtualAddress) -> (r: VirtualAddressV2) {
        VirtualAddressV2::new(va)
    }

    fn entries_per_page(level: PageTableLevel) -> (r: usize) {
        match level {
            PageTableLevel::Pdb => 4,
            PageTableLevel::L3 => 256,
            _ => 512,
        }
    }
}

/// The MMU v2 view of a virtual address holds the address itself.
pub proof fn lemma_va_spec(va: VirtualAddress)
    ensures
        MmuV2::va_spec(va)@ == va@,
{
}


/// Every index that an MMU v2 virtual address selects fits the table at its
/// level: it is below that level's number of entries per page.
pub proof fn lemma_v2_level_index_in_table(va: u64, level: PageTableLevel)
    ensures
        va_level_index(va, level) < v2_entries_per_page(level),
{
    assert((va & 0x1_8000_0000_0000u64) >> 47u64 < 4 && (va & 0x7fc0_0000_0000u64) >> 38u64 < 512
        && (va & 0x3f_e000_0000u64) >> 29u64 < 512 && (va & 0x1fe0_0000u64) >> 21u64 < 256 && (va
        & 0x1f_f000u64) >> 12u64 < 512) by (bit_vector);
}

/// The page offset and the five table indices of an MMU v2 virtual address
/// together give back its low 49 bits, the part the MMU translates.
pub proof fn lemma_v2_va_decomposition(va: u64)
    ensures
        field_of(va, VA_OFFSET_MASK, 0) + field_of(va, VA_PT_IDX_MASK, 12) * 0x1000 + field_of(
            va,
            VA_PDE0_IDX_MASK,
            21,
        ) * 0x20_0000 + field_of(va, VA_PDE1_IDX_MASK, 29) * 0x2000_0000 + field_of(
            va,
            VA_PDE2_IDX_MASK,
            38,
        ) * 0x40_0000_0000 + field_of(va, VA_PDE3_IDX_MASK, 47) * 0x8000_0000_0000 == va
            % 0x2_0000_0000_0000,
{
    assert(((va & 0xfffu64) >> 0u64) + ((va & 0x1f_f000u64) >> 12u64) * 0x1000 + ((va
        & 0x1fe0_0000u64) >> 21u64) * 0x20_0000 + ((va & 0x3f_e000_0000u64) >> 29u64) * 0x2000_0000
        + ((va & 0x7fc0_0000_0000u64) >> 38u64) * 0x40_0000_0000 + ((va & 0x1_8000_0000_0000u64)
        >> 47u64) * 0x8000_0000_0000 == va % 0x2_0000_0000_0000) by (bit_vector);
}

/// Under MMU v2 the page table bound never exceeds the number of mapped pages
/// plus the five levels' rounding, so it always fits a `usize` and
/// `pt_pages_upper_bound` accepts every page count.
pub proof fn lemma_v2_pt_pages_bound_fits(num_virt_pages: usize)
    ensures
        pt_pages_bound(
            num_virt_pages as nat,
            MmuV2::pte_level_spec(),
            MmuV2::pde_levels_spec(),
            |l: PageTableLevel| MmuV2::entries_per_page_spec(l) as nat,
        ) <= usize::MAX,
{
    let epp = |l: PageTableLevel| MmuV2::entries_per_page_spec(l) as nat;
    let n = num_virt_pages as nat;
    let levels = MmuV2::pde_levels_spec();
    let c0 = ceil_div(n, 512);
    let c1 = ceil_div(c0, 256);
    let c2 = ceil_div(c1, 512);
    let c3 = ceil_div(c2, 512);
    let c4 = ceil_div(c3, 4);
    assert(c0 <= n / 512 + 1);
    assert(n / 512 + 1 <= n / 2 + 1) by (nonlinear_arith);
    lemma_ceil_div_at_most(c0, 256);
    lemma_ceil_div_at_most(c1, 512);
    lemma_ceil_div_at_most(c2, 512);
    lemma_ceil_div_at_most(c3, 4);
    let l3 = levels.drop_last();
    let l2 = l3.drop_last();
    let l1 = l2.drop_last();
    let l0 = l1.drop_last();
    assert(levels.last() == PageTableLevel::L3);
    assert(l3 =~= seq![PageTableLevel::Pdb, PageTableLevel::L1, PageTableLevel::L2]);
    assert(l2 =~= seq![PageTableLevel::Pdb, PageTableLevel::L1]);
    assert(l1 =~= seq![PageTableLevel::Pdb]);
    assert(l0.len() == 0);
    assert(pde_pages(c4, l0, epp) == 0);
    assert(pde_pages(c3, l1, epp) == c4);
    assert(pde_pages(c2, l2, epp) == c3 + c4);
    assert(pde_pages(c1, l3, epp) == c2 + c3 + c4);
    assert(pde_pages(c0, levels, epp) == c1 + c2 + c3 + c4);
}

/// Under MMU v2 the page table bound has a closed form: for each level, the
/// number of mapped pages divided, rounding up, by the pages that one table
/// at that level covers (512, 2^17, 2^26, 2^35 and 2^37 pages from the `PTE`
/// level up to the root). It is at most `n / 256 + 5`.
pub proof fn lemma_v2_pt_pages_bound_closed_form(n: nat)
    ensures
        pt_pages_bound(
            n,
            MmuV2::pte_level_spec(),
            MmuV2::pde_levels_spec(),
            |l: PageTableLevel| MmuV2::entries_per_page_spec(l) as nat,
        ) == ceil_div(n, 512) + ceil_div(n, 0x2_0000) + ceil_div(n, 0x400_0000) + ceil_div(
            n,
            0x8_0000_0000,
        ) + ceil_div(n, 0x20_0000_0000),
        pt_pages_bound(
            n,
            MmuV2::pte_level_spec(),
            MmuV2::pde_levels_spec(),
            |l: PageTableLevel| MmuV2::entries_per_page_spec(l) as nat,
        ) <= n / 256 + 5,
{
    let epp = |l: PageTableLevel| MmuV2::entries_per_page_spec(l) as nat;
    let levels = MmuV2::pde_levels_spec();
    let c0 = ceil_div(n, 512);
    let c1 = ceil_div(c0, 256);
    let c2 = ceil_div(c1, 512);
    let c3 = ceil_div(c2, 512);
    let c4 = ceil_div(c3, 4);
    let l3 = levels.drop_last();
    let l2 = l3.drop_last();
    let l1 = l2.drop_last();
    let l0 = l1.drop_last();
    assert(levels.last() == PageTableLevel::L3);
    assert(l3 =~= seq![PageTableLevel::Pdb, PageTableLevel::L1, PageTableLevel::L2]);
    assert(l2 =~= seq![PageTableLevel::Pdb, PageTableLevel::L1]);
    assert(l1 =~= seq![PageTableLevel::Pdb]);
    assert(l0.len() == 0);
    assert(pde_pages(c4, l0, epp) == 0);
    assert(pde_pages(c3, l1, epp) == c4);
    assert(pde_pages(c2, l2, epp) == c3 + c4);
    assert(pde_pages(c1, l3, epp) == c2 + c3 + c4);
    assert(pde_pages(c0, levels, epp) == c1 + c2 + c3 + c4);
    lemma_ceil_div_compose(n, 512, 256);
    lemma_ceil_div_compose(n, 0x2_0000, 512);
    lemma_ceil_div_compose(n, 0x400_0000, 512);
    lemma_ceil_div_compose(n, 0x8_0000_0000, 4);
    // Each term is at most its floor plus one, and the floors add up to at
    // most n / 256.
    let f = n / 512;
    vstd::arithmetic::div_mod::lemma_div_denominator(n as int, 512, 0x100);
    vstd::arithmetic::div_mod::lemma_div_denominator(n as int, 512, 0x2_0000);
    vstd::arithmetic::div_mod::lemma_div_denominator(n as int, 512, 0x400_0000);
    vstd::arithmetic::div_mod::lemma_div_denominator(n as int, 512, 0x1000_0000);
    vstd::arithmetic::div_mod::lemma_div_is_ordered_by_denominator(f as int, 0x100, 0x2_0000);
    vstd::arithmetic::div_mod::lemma_div_is_ordered_by_denominator(f as int, 0x100, 0x400_0000);
    vstd::arithmetic::div_mod::lemma_div_is_ordered_by_denominator(f as int, 0x100, 0x1000_0000);
    vstd::arithmetic::div_mod::lemma_div_denominator(n as int, 0x100, 2);
    assert(n / 256 >= 2 * f) by (nonlinear_arith)
        requires
            (n / 256) / 2 == f,
    ;
    assert(4 * (f / 256) <= f) by (nonlinear_arith);
}

/// Rounding up a division by at least 2 gives at most the dividend.
proof fn lemma_ceil_div_at_most(n: nat, d: nat)
    requires
        d >= 2,
    ensures
        ceil_div(n, d) <= n,
{
    if n > 0 {
        assert(n / d < n) by (nonlinear_arith)
            requires
                n > 0,
                d >= 2,
        ;
    }
}

/// The raw value of the `PTE` that `Pte::new_vram` builds: valid, in video
/// memory, pointing at the low 25 bits of `pfn`, read-only unless `writable`.
pub open spec fn vram_pte_raw(pfn: u64, writable: bool) -> u64 {
    PTE_VALID_MASK | ((pfn << 8) & FRAME_VID_MASK) | (if writable {
        0
    } else {
        PTE_READ_ONLY_MASK
    })
}

/// The `PTE` that `new_vram` builds field by field is `vram_pte_raw`, and
/// reads back as valid, in video memory, with the frame cut to 25 bits and the
/// write protection as asked.
proof fn lemma_vram_pte(p: u64, writable: bool)
    ensures
        ({
            let ro: u64 = if !writable { 1 } else { 0 };
            let built = with_field(
                with_field(
                    with_field(with_field(0, PTE_VALID_MASK, 0, 1), APERTURE_MASK, 1, 0),
                    FRAME_VID_MASK,
                    8,
                    p,
                ),
                PTE_READ_ONLY_MASK,
                6,
                ro,
            );
            let x = vram_pte_raw(p, writable);
            &&& built == x
            &&& field_of(x, PTE_VALID_MASK, 0) == 1
            &&& field_of(x, APERTURE_MASK, 1) == 0
            &&& field_of(x, FRAME_VID_MASK, 8) == p & FRAME_VID_MAX
            &&& field_of(x, PTE_READ_ONLY_MASK, 6) == ro
        }),
        p <= FRAME_VID_MAX ==> p & FRAME_VID_MAX == p,
{
    assert(p <= 0x1ff_ffffu64 ==> p & 0x1ff_ffffu64 == p) by (bit_vector);
    if writable {
        let x = 1u64 | ((p << 8u64) & 0x1_ffff_ff00u64) | 0u64;
        assert(((((((((0u64 & !1u64) | ((1u64 << 0u64) & 1u64)) & !6u64) | ((0u64 << 1u64) & 6u64))
            & !0x1_ffff_ff00u64) | ((p << 8u64) & 0x1_ffff_ff00u64)) & !0x40u64) | ((0u64 << 6u64)
            & 0x40u64)) == x && ((x & 1u64) >> 0u64) == 1 && ((x & 6u64) >> 1u64) == 0 && ((x
            & 0x1_ffff_ff00u64) >> 8u64) == (p & 0x1ff_ffffu64) && ((x & 0x40u64) >> 6u64) == 0)
            by (bit_vector)
            requires
                x == 1u64 | ((p << 8u64) & 0x1_ffff_ff00u64) | 0u64,
        ;
    } else {
        let x = 1u64 | ((p << 8u64) & 0x1_ffff_ff00u64) | 0x40u64;
        assert(((((((((0u64 & !1u64) | ((1u64 << 0u64) & 1u64)) & !6u64) | ((0u64 << 1u64) & 6u64))
            & !0x1_ffff_ff00u64) | ((p << 8u64) & 0x1_ffff_ff00u64)) & !0x40u64) | ((1u64 << 6u64)
            & 0x40u64)) == x && ((x & 1u64) >> 0u64) == 1 && ((x & 6u64) >> 1u64) == 0 && ((x
            & 0x1_ffff_ff00u64) >> 8u64) == (p & 0x1ff_ffffu64) && ((x & 0x40u64) >> 6u64) == 1)
            by (bit_vector)
            requires
                x == 1u64 | ((p << 8u64) & 0x1_ffff_ff00u64) | 0x40u64,
        ;
    }
}

/// Page Table Entry (`PTE`) for MMU v2 - 64-bit entry at level 4.
#[derive(Debug, Clone, Copy, PartialEq, Eq, Structural)]
pub struct Pte(u64);

impl View for Pte {
    type V = u64;

    closed spec fn view(&self) -> u64 {
        self.0
    }
}

impl Default for Pte {
    fn default() -> (r: Self)
        ensures
            r@ == 0,
    {
        Pte(0)
    }
}

impl Pte {
    /// Entry is valid (bit 0).
    pub open spec fn valid_field(self) -> bool {
        field_of(self@, PTE_VALID_MASK, 0) != 0
    }

    /// Memory aperture type (bits 2:1).
    pub open spec fn aperture_field(self) -> AperturePte {
        AperturePte::from_u8_spec(field_of(self@, APERTURE_MASK, 1) as u8)
    }

    /// Write protection (bit 6).
    pub open spec fn read_only_field(self) -> bool {
        field_of(self@, PTE_READ_ONLY_MASK, 6) != 0
    }

    /// Frame number for system memory (bits 53:8).
    pub open spec fn frame_number_sys_field(self) -> u64 {
        field_of(self@, FRAME_SYS_MASK, 8)
    }

    /// Frame number for video memory (bits 32:8).
    pub open spec fn frame_number_vid_field(self) -> u64 {
        field_of(self@, FRAME_VID_MASK, 8)
    }

    /// Entry is valid.
    pub fn valid(self) -> (r: bool)
        ensures
            r == self.valid_field(),
    {
        get_field(self.0, PTE_VALID_MASK, 0) != 0
    }

    /// Memory aperture type.
    pub fn aperture(self) -> (r: AperturePte)
        ensures
            r == self.aperture_field(),
    {
        AperturePte::from(get_field(self.0, APERTURE_MASK, 1) as u8)
    }

    /// Volatile (bypass L2 cache).
    pub fn volatile(self) -> (r: bool)
        ensures
            r == (field_of(self@, VOLATILE_MASK, 3) != 0),
    {
        get_field(self.0, VOLATILE_MASK, 3) != 0
    }

    /// Encryption enabled (Confidential Computing).
    pub fn encrypted(self) -> (r: bool)
        ensures
            r == (field_of(self@, PTE_ENCRYPTED_MASK, 4) != 0),
    {
        get_field(self.0, PTE_ENCRYPTED_MASK, 4) != 0
    }

    /// Privileged access only.
    pub fn privilege(self) -> (r: bool)
        ensures
            r == (field_of(self@, PTE_PRIVILEGE_MASK, 5) != 0),
    {
        get_field(self.0, PTE_PRIVILEGE_MASK, 5) != 0
    }

    /// Write protection.
    pub fn read_only(self) -> (r: bool)
        ensures
            r == self.read_only_field(),
    {
        get_field(self.0, PTE_READ_ONLY_MASK, 6) != 0
    }

    /// Atomic operations disabled.
    pub fn atomic_disable(self) -> (r: bool)
        ensures
            r == (field_of(self@, PTE_ATOMIC_DISABLE_MASK, 7) != 0),
    {
        get_field(self.0, PTE_ATOMIC_DISABLE_MASK, 7) != 0
    }

    /// Frame number for system memory.
    pub fn frame_number_sys(self) -> (r: Pfn)
        ensures
            r@ == self.frame_number_sys_field(),
    {
        Pfn::new(get_field(self.0, FRAME_SYS_MASK, 8))
    }

    /// Frame number for video memory.
    pub fn frame_number_vid(self) -> (r: Pfn)
        ensures
            r@ == self.frame_number_vid_field(),
    {
        Pfn::new(get_field(self.0, FRAME_VID_MASK, 8))
    }

    /// Peer GPU ID for peer memory (0-7).
    pub fn peer_id(self) -> (r: u8)
        ensures
            r == field_of(self@, PEER_ID_MASK, 33),
    {
        proof {
            let v = self.0;
            assert((v & 0xe_0000_0000u64) >> 33u64 <= 7) by (bit_vector);
        }
        get_field(self.0, PEER_ID_MASK, 33) as u8
    }

    /// Compression tag line bits.
    pub fn comptagline(self) -> (r: u32)
        ensures
            r == field_of(self@, PTE_COMPTAGLINE_MASK, 36),
    {
        proof {
            let v = self.0;
            assert((v & 0x3f_fff0_0000_0000u64) >> 36u64 <= 0x3ffff) by (bit_vector);
        }
        get_field(self.0, PTE_COMPTAGLINE_MASK, 36) as u32
    }

    /// Surface kind/format.
    pub fn kind(self) -> (r: u8)
        ensures
            r == field_of(self@, PTE_KIND_MASK, 56),
    {
        proof {
            let v = self.0;
            assert((v & 0xff00_0000_0000_0000u64) >> 56u64 <= 0xff) by (bit_vector);
        }
        get_field(self.0, PTE_KIND_MASK, 56) as u8
    }

    /// Sets the valid bit.
    pub fn set_valid(self, valid: bool) -> (r: Self)
        ensures
            r@ == with_field(self@, PTE_VALID_MASK, 0, if valid { 1 } else { 0 }),
    {
        Pte(set_field(self.0, PTE_VALID_MASK, 0, if valid { 1 } else { 0 }))
    }

    /// Sets the memory aperture type.
    pub fn set_aperture(self, aperture: AperturePte) -> (r: Self)
        ensures
            r@ == with_field(self@, APERTURE_MASK, 1, aperture.to_u8_spec() as u64),
    {
        Pte(set_field(self.0, APERTURE_MASK, 1, u8::from(aperture) as u64))
    }

    /// Sets the write protection bit.
    pub fn set_read_only(self, read_only: bool) -> (r: Self)
        ensures
            r@ == with_field(self@, PTE_READ_ONLY_MASK, 6, if read_only { 1 } else { 0 }),
    {
        Pte(set_field(self.0, PTE_READ_ONLY_MASK, 6, if read_only { 1 } else { 0 }))
    }

    /// Sets the frame number for video memory (its low 25 bits).
    pub fn set_frame_number_vid(self, pfn: Pfn) -> (r: Self)
        ensures
            r@ == with_field(self@, FRAME_VID_MASK, 8, pfn@),
    {
        Pte(set_field(self.0, FRAME_VID_MASK, 8, pfn.raw()))
    }

    /// Sets the volatile (bypass L2 cache) bit.
    pub fn set_volatile(self, volatile: bool) -> (r: Self)
        ensures
            r@ == with_field(self@, VOLATILE_MASK, 3, if volatile { 1 } else { 0 }),
    {
        Pte(set_field(self.0, VOLATILE_MASK, 3, if volatile { 1 } else { 0 }))
    }

    /// Sets the encryption bit.
    pub fn set_encrypted(self, encrypted: bool) -> (r: Self)
        ensures
            r@ == with_field(self@, PTE_ENCRYPTED_MASK, 4, if encrypted { 1 } else { 0 }),
    {
        Pte(set_field(self.0, PTE_ENCRYPTED_MASK, 4, if encrypted { 1 } else { 0 }))
    }

    /// Sets the privileged-access-only bit.
    pub fn set_privilege(self, privilege: bool) -> (r: Self)
        ensures
            r@ == with_field(self@, PTE_PRIVILEGE_MASK, 5, if privilege { 1 } else { 0 }),
    {
        Pte(set_field(self.0, PTE_PRIVILEGE_MASK, 5, if privilege { 1 } else { 0 }))
    }

    /// Sets the atomic-operations-disabled bit.
    pub fn set_atomic_disable(self, atomic_disable: bool) -> (r: Self)
        ensures
            r@ == with_field(self@, PTE_ATOMIC_DISABLE_MASK, 7, if atomic_disable { 1 } else { 0 }),
    {
        Pte(set_field(self.0, PTE_ATOMIC_DISABLE_MASK, 7, if atomic_disable { 1 } else { 0 }))
    }

    /// Sets the frame number for system memory (its low 46 bits).
    pub fn set_frame_number_sys(self, pfn: Pfn) -> (r: Self)
        ensures
            r@ == with_field(self@, FRAME_SYS_MASK, 8, pfn@),
    {
        Pte(set_field(self.0, FRAME_SYS_MASK, 8, pfn.raw()))
    }

    /// Sets the peer GPU ID (its low 3 bits).
    pub fn set_peer_id(self, peer_id: u8) -> (r: Self)
        ensures
            r@ == with_field(self@, PEER_ID_MASK, 33, peer_id as u64),
    {
        Pte(set_field(self.0, PEER_ID_MASK, 33, peer_id as u64))
    }

    /// Sets the compression tag line (its low 18 bits).
    pub fn set_comptagline(self, comptagline: u32) -> (r: Self)
        ensures
            r@ == with_field(self@, PTE_COMPTAGLINE_MASK, 36, comptagline as u64),
    {
        Pte(set_field(self.0, PTE_COMPTAGLINE_MASK, 36, comptagline as u64))
    }

    /// Sets the surface kind.
    pub fn set_kind(self, kind: u8) -> (r: Self)
        ensures
            r@ == with_field(self@, PTE_KIND_MASK, 56, kind as u64),
    {
        Pte(set_field(self.0, PTE_KIND_MASK, 56, kind as u64))
    }
}

impl PteOps for Pte {
    open spec fn raw_spec(&self) -> u64 {
        self@
    }

    open spec fn is_valid_spec(&self) -> bool {
        self.valid_field()
    }

    open spec fn is_writable_spec(&self) -> bool {
        !self.read_only_field()
    }

    open spec fn frame_number_spec(&self) -> u64 {
        if self.aperture_field() == AperturePte::VideoMemory {
            self.frame_number_vid_field()
        } else {
            self.frame_number_sys_field()
        }
    }

    open spec fn vram_frame_max() -> u64 {
        FRAME_VID_MAX
    }

    fn new(val: u64) -> (r: Self) {
        Pte(val)
    }

    fn invalid() -> (r: Self)
        ensures
            r@ == 0,
    {
        let r = Self::default();
        assert((0u64 & 1u64) >> 0u64 == 0) by (bit_vector);
        r
    }

    fn new_vram(pfn: Pfn, writable: bool) -> (r: Self)
        ensures
            r@ == vram_pte_raw(pfn@, writable),
            r.aperture_field() == AperturePte::VideoMemory,
            r.frame_number_vid_field() == pfn@ & FRAME_VID_MAX,
    {
        let r = Self::default().set_valid(true).set_aperture(AperturePte::VideoMemory)
            .set_frame_number_vid(pfn).set_read_only(!writable);
        proof {
            lemma_vram_pte(pfn@, writable);
        }
        r
    }

    fn is_valid(&self) -> (r: bool) {
        self.valid()
    }

    fn frame_number(&self) -> (r: Pfn) {
        match self.aperture() {
            AperturePte::VideoMemory => self.frame_number_vid(),
            _ => self.frame_number_sys(),
        }
    }

    fn raw_u64(&self) -> (r: u64) {
        self.0
    }
}


/// The raw value of the `PDE` that `Pde::new_vram` builds: valid (bit 0
/// clear), in video memory, pointing at the low 25 bits of `pfn`.
pub open spec fn vram_pde_raw(pfn: u64) -> u64 {
    (1u64 << 1u64) | ((pfn << 8) & FRAME_VID_MASK)
}

/// The `PDE` that `new_vram` builds field by field is `vram_pde_raw`, and
/// reads back as valid, in video memory, with the frame cut to 25 bits.
proof fn lemma_vram_pde(p: u64)
    ensures
        with_field(
            with_field(with_field(0, PDE_VALID_INVERTED_MASK, 0, 0), APERTURE_MASK, 1, 1),
            FRAME_VID_MASK,
            8,
            p,
        ) == vram_pde_raw(p),
        field_of(vram_pde_raw(p), PDE_VALID_INVERTED_MASK, 0) == 0,
        field_of(vram_pde_raw(p), APERTURE_MASK, 1) == 1,
        field_of(vram_pde_raw(p), FRAME_VID_MASK, 8) == p & FRAME_VID_MAX,
        p <= FRAME_VID_MAX ==> p & FRAME_VID_MAX == p,
{
    assert(p <= 0x1ff_ffffu64 ==> p & 0x1ff_ffffu64 == p) by (bit_vector);
    let x = (1u64 << 1u64) | ((p << 8u64) & 0x1_ffff_ff00u64);
    assert((((((0u64 & !1u64) | ((0u64 << 0u64) & 1u64)) & !6u64) | ((1u64 << 1u64) & 6u64))
        & !0x1_ffff_ff00u64) | ((p << 8u64) & 0x1_ffff_ff00u64) == x && ((x & 1u64) >> 0u64) == 0
        && ((x & 6u64) >> 1u64) == 1 && ((x & 0x1_ffff_ff00u64) >> 8u64) == (p & 0x1ff_ffffu64))
        by (bit_vector)
        requires
            x == (1u64 << 1u64) | ((p << 8u64) & 0x1_ffff_ff00u64),
    ;
}

/// Page Directory Entry (`PDE`) for MMU v2 - 64-bit entry at levels 0-2.
#[derive(Debug, Clone, Copy, PartialEq, Eq, Structural)]
pub struct Pde(u64);

impl View for Pde {
    type V = u64;

    closed spec fn view(&self) -> u64 {
        self.0
    }
}

impl Default for Pde {
    fn default() -> (r: Self)
        ensures
            r@ == 0,
    {
        Pde(0)
    }
}

impl Pde {
    /// Valid bit, inverted logic (bit 0).
    pub open spec fn valid_inverted_field(self) -> bool {
        field_of(self@, PDE_VALID_INVERTED_MASK, 0) != 0
    }

    /// Memory aperture type (bits 2:1).
    pub open spec fn aperture_field(self) -> AperturePde {
        AperturePde::from_u8_spec(field_of(self@, APERTURE_MASK, 1) as u8)
    }

    /// Table frame number for system memory (bits 53:8).
    pub open spec fn table_frame_sys_field(self) -> u64 {
        field_of(self@, FRAME_SYS_MASK, 8)
    }

    /// Table frame number for video memory (bits 32:8).
    pub open spec fn table_frame_vid_field(self) -> u64 {
        field_of(self@, FRAME_VID_MASK, 8)
    }

    /// Valid bit (inverted logic).
    pub fn valid_inverted(self) -> (r: bool)
        ensures
            r == self.valid_inverted_field(),
    {
        get_field(self.0, PDE_VALID_INVERTED_MASK, 0) != 0
    }

    /// Memory aperture type.
    pub fn aperture(self) -> (r: AperturePde)
        ensures
            r == self.aperture_field(),
    {
        AperturePde::from(get_field(self.0, APERTURE_MASK, 1) as u8)
    }

    /// Volatile (bypass L2 cache).
    pub fn volatile(self) -> (r: bool)
        ensures
            r == (field_of(self@, VOLATILE_MASK, 3) != 0),
    {
        get_field(self.0, VOLATILE_MASK, 3) != 0
    }

    /// Disable Address Translation Services.
    pub fn no_ats(self) -> (r: bool)
        ensures
            r == (field_of(self@, PDE_NO_ATS_MASK, 5) != 0),
    {
        get_field(self.0, PDE_NO_ATS_MASK, 5) != 0
    }

    /// Table frame number for system memory.
    pub fn table_frame_sys(self) -> (r: Pfn)
        ensures
            r@ == self.table_frame_sys_field(),
    {
        Pfn::new(get_field(self.0, FRAME_SYS_MASK, 8))
    }

    /// Table frame number for video memory.
    pub fn table_frame_vid(self) -> (r: Pfn)
        ensures
            r@ == self.table_frame_vid_field(),
    {
        Pfn::new(get_field(self.0, FRAME_VID_MASK, 8))
    }

    /// Peer GPU ID (0-7).
    pub fn peer_id(self) -> (r: u8)
        ensures
            r == field_of(self@, PEER_ID_MASK, 33),
    {
        proof {
            let v = self.0;
            assert((v & 0xe_0000_0000u64) >> 33u64 <= 7) by (bit_vector);
        }
        get_field(self.0, PEER_ID_MASK, 33) as u8
    }

    /// Sets the valid bit (inverted logic: `false` marks the entry valid).
    pub fn set_valid_inverted(self, valid_inverted: bool) -> (r: Self)
        ensures
            r@ == with_field(
                self@,
                PDE_VALID_INVERTED_MASK,
                0,
                if valid_inverted {
                    1
                } else {
                    0
                },
            ),
    {
        Pde(set_field(self.0, PDE_VALID_INVERTED_MASK, 0, if valid_inverted { 1 } else { 0 }))
    }

    /// Sets the memory aperture type.
    pub fn set_aperture(self, aperture: AperturePde) -> (r: Self)
        ensures
            r@ == with_field(self@, APERTURE_MASK, 1, aperture.to_u8_spec() as u64),
    {
        Pde(set_field(self.0, APERTURE_MASK, 1, u8::from(aperture) as u64))
    }

    /// Sets the table frame number for video memory (its low 25 bits).
    pub fn set_table_frame_vid(self, pfn: Pfn) -> (r: Self)
        ensures
            r@ == with_field(self@, FRAME_VID_MASK, 8, pfn@),
    {
        Pde(set_field(self.0, FRAME_VID_MASK, 8, pfn.raw()))
    }

    /// Sets the volatile (bypass L2 cache) bit.
    pub fn set_volatile(self, volatile: bool) -> (r: Self)
        ensures
            r@ == with_field(self@, VOLATILE_MASK, 3, if volatile { 1 } else { 0 }),
    {
        Pde(set_field(self.0, VOLATILE_MASK, 3, if volatile { 1 } else { 0 }))
    }

    /// Sets the disable-ATS bit.
    pub fn set_no_ats(self, no_ats: bool) -> (r: Self)
        ensures
            r@ == with_field(self@, PDE_NO_ATS_MASK, 5, if no_ats { 1 } else { 0 }),
    {
        Pde(set_field(self.0, PDE_NO_ATS_MASK, 5, if no_ats { 1 } else { 0 }))
    }

    /// Sets the table frame number for system memory (its low 46 bits).
    pub fn set_table_frame_sys(self, pfn: Pfn) -> (r: Self)
        ensures
            r@ == with_field(self@, FRAME_SYS_MASK, 8, pfn@),
    {
        Pde(set_field(self.0, FRAME_SYS_MASK, 8, pfn.raw()))
    }

    /// Sets the peer GPU ID (its low 3 bits).
    pub fn set_peer_id(self, peer_id: u8) -> (r: Self)
        ensures
            r@ == with_field(self@, PEER_ID_MASK, 33, peer_id as u64),
    {
        Pde(set_field(self.0, PEER_ID_MASK, 33, peer_id as u64))
    }
}

impl PdeOps for Pde {
    open spec fn raw_spec(&self) -> u64 {
        self@
    }

    open spec fn is_valid_spec(&self) -> bool {
        !self.valid_inverted_field() && self.aperture_field() != AperturePde::Invalid
    }

    open spec fn aperture_spec(&self) -> AperturePde {
        self.aperture_field()
    }

    open spec fn table_frame_spec(&self) -> u64 {
        if self.aperture_field() == AperturePde::VideoMemory {
            self.table_frame_vid_field()
        } else {
            self.table_frame_sys_field()
        }
    }

    open spec fn vram_frame_max() -> u64 {
        FRAME_VID_MAX
    }

    fn new(val: u64) -> (r: Self) {
        Pde(val)
    }

    fn new_vram(table_pfn: Pfn) -> (r: Self)
        ensures
            r@ == vram_pde_raw(table_pfn@),
            r.table_frame_vid_field() == table_pfn@ & FRAME_VID_MAX,
    {
        let r = Self::default().set_valid_inverted(false).set_aperture(AperturePde::VideoMemory)
            .set_table_frame_vid(table_pfn);
        proof {
            lemma_vram_pde(table_pfn@);
        }
        r
    }

    fn is_valid(&self) -> (r: bool) {
        !self.valid_inverted() && (*self).aperture() != AperturePde::Invalid
    }

    fn aperture(&self) -> (r: AperturePde) {
        Pde::aperture(*self)
    }

    fn table_frame(&self) -> (r: Pfn) {
        match Pde::aperture(*self) {
            AperturePde::VideoMemory => self.table_frame_vid(),
            _ => self.table_frame_sys(),
        }
    }

    fn table_vram_address(&self) -> (r: VramAddress) {
        VramAddress::from_pfn(self.table_frame_vid())
    }

    fn raw_u64(&self) -> (r: u64) {
        self.0
    }
}

/// Dual `PDE` at Level 3 - 128-bit entry of Large/Small Page Table pointers.
///
/// The dual `PDE` supports both large (64KB) and small (4KB) page tables.
#[derive(Debug, Clone, Copy, PartialEq, Eq, Structural)]
pub struct DualPde {
    /// Large/Big Page Table pointer (lower 64 bits).
    pub big: Pde,
    /// Small Page Table pointer (upper 64 bits).
    pub small: Pde,
}

impl Default for DualPde {
    fn default() -> (r: Self)
        ensures
            r.big@ == 0,
            r.small@ == 0,
    {
        DualPde { big: Pde::default(), small: Pde::default() }
    }
}

impl DualPdeOps for DualPde {
    open spec fn big_raw_spec(&self) -> u64 {
        self.big@
    }

    open spec fn small_raw_spec(&self) -> u64 {
        self.small@
    }

    open spec fn has_small_spec(&self) -> bool {
        self.small.is_valid_spec()
    }

    open spec fn has_big_spec(&self) -> bool {
        self.big.is_valid_spec()
    }

    open spec fn small_in_vram_spec(&self) -> bool {
        self.small.aperture_field() == AperturePde::VideoMemory
    }

    open spec fn small_pfn_spec(&self) -> u64 {
        self.small.table_frame_spec()
    }

    open spec fn vram_frame_max() -> u64 {
        FRAME_VID_MAX
    }

    fn new(big: u64, small: u64) -> (r: Self) {
        Self { big: Pde::new(big), small: Pde::new(small) }
    }

    // The big (large page table) word is set to 0, not to an invalid `PDE`:
    // with bit 0 of the 128-bit entry clear the entry behaves as a normal
    // `PDE`, while setting it (`valid_inverted`) breaks page table walking.
    fn new_small(table_pfn: Pfn) -> (r: Self)
        ensures
            r.big@ == 0,
            r.small@ == vram_pde_raw(table_pfn@),
    {
        let r = Self { big: Pde::new(0), small: Pde::new_vram(table_pfn) };
        assert((0u64 & 6u64) >> 1u64 == 0) by (bit_vector);
        r
    }

    fn has_small(&self) -> (r: bool) {
        self.small.is_valid()
    }

    fn has_big(&self) -> (r: bool) {
        self.big.is_valid()
    }

    fn small_pfn(&self) -> (r: Pfn) {
        self.small.table_frame()
    }

    fn small_vram_address(&self) -> (r: VramAddress) {
        self.small.table_vram_address()
    }

    fn big_raw_u64(&self) -> (r: u64) {
        self.big.raw_u64()
    }

    fn small_raw_u64(&self) -> (r: u64) {
        self.small.raw_u64()
    }
}

} // verus!

verus! {

/// A cleared entry maps nothing: the zero `PTE` is invalid, and the zero
/// `PDE` is invalid with an invalid aperture, even though its inverted valid
/// bit reads as "valid".
pub proof fn lemma_v2_zero_entries_invalid(pte: Pte, pde: Pde)
    requires
        pte@ == 0,
        pde@ == 0,
    ensures
        !pte.is_valid_spec(),
        !pde.is_valid_spec(),
        pde.aperture_spec() == AperturePde::Invalid,
        !pde.valid_inverted_field(),
{
    assert((0u64 & 1u64) >> 0u64 == 0 && (0u64 & 6u64) >> 1u64 == 0) by (bit_vector);
}

/// A `PTE` as `new_vram` writes it reads back as written: valid, with the
/// frame number and the write permission it was given.
pub proof fn lemma_v2_pte_vram_round_trip(pte: Pte, pfn: u64, writable: bool)
    requires
        pte@ == vram_pte_raw(pfn, writable),
        pfn <= FRAME_VID_MAX,
    ensures
        pte.is_valid_spec(),
        pte.is_writable_spec() == writable,
        pte.aperture_field() == AperturePte::VideoMemory,
        pte.frame_number_spec() == pfn,
{
    lemma_vram_pte(pfn, writable);
}

/// A `PDE` as `new_vram` writes it reads back as written: valid, in video
/// memory, pointing at the table frame it was given, whose VRAM address is
/// that frame times the page size.
pub proof fn lemma_v2_pde_vram_round_trip(pde: Pde, pfn: u64)
    requires
        pde@ == vram_pde_raw(pfn),
        pfn <= FRAME_VID_MAX,
    ensures
        pde.is_valid_spec(),
        pde.aperture_spec() == AperturePde::VideoMemory,
        pde.table_frame_spec() == pfn,
        pfn_to_vram_address(pde.table_frame_spec()) == pfn * 0x1000,
{
    lemma_vram_pde(pfn);
    assert(pfn <= 0x1ff_ffffu64 ==> pfn << 12u64 == pfn * 0x1000) by (bit_vector);
}

/// A dual `PDE` as `new_small` writes it has only its small table pointer,
/// which points at the table frame it was given.
pub proof fn lemma_v2_dual_pde_small_round_trip(dual: DualPde, pfn: u64)
    requires
        dual.big@ == 0,
        dual.small@ == vram_pde_raw(pfn),
        pfn <= FRAME_VID_MAX,
    ensures
        dual.has_small_spec(),
        !dual.has_big_spec(),
        dual.small_in_vram_spec(),
        dual.small_pfn_spec() == pfn,
{
    lemma_vram_pde(pfn);
    lemma_v2_zero_entries_invalid(Pte(0), dual.big);
}

} // verus!

verus! {

/// The layout of MMU v2 entries: every field mask starts at its shift, and the
/// single-purpose fields of a `PTE` (valid, aperture, the five flag bits, the
/// video memory frame and the kind) and of a `PDE` (inverted valid, aperture,
/// volatile, no-ATS and the video memory frame) do not overlap, so by
/// `bits::lemma_field_of_with_field_other` setting one leaves the others as
/// they were. The system memory frame overlaps the peer ID and the
/// compression tag line by design.
pub proof fn lemma_v2_entry_layout()
    ensures
        field_fits(PTE_VALID_MASK, 0),
        field_fits(APERTURE_MASK, 1),
        field_fits(VOLATILE_MASK, 3),
        field_fits(PTE_ENCRYPTED_MASK, 4),
        field_fits(PTE_PRIVILEGE_MASK, 5),
        field_fits(PTE_READ_ONLY_MASK, 6),
        field_fits(PTE_ATOMIC_DISABLE_MASK, 7),
        field_fits(FRAME_SYS_MASK, 8),
        field_fits(FRAME_VID_MASK, 8),
        field_fits(PEER_ID_MASK, 33),
        field_fits(PTE_COMPTAGLINE_MASK, 36),
        field_fits(PTE_KIND_MASK, 56),
        field_fits(PDE_NO_ATS_MASK, 5),
        field_max(FRAME_VID_MASK, 8) == FRAME_VID_MAX,
        PTE_VALID_MASK & APERTURE_MASK == 0,
        (PTE_VALID_MASK | APERTURE_MASK) & VOLATILE_MASK == 0,
        (PTE_VALID_MASK | APERTURE_MASK | VOLATILE_MASK) & PTE_ENCRYPTED_MASK == 0,
        (PTE_VALID_MASK | APERTURE_MASK | VOLATILE_MASK | PTE_ENCRYPTED_MASK) & PTE_PRIVILEGE_MASK
            == 0,
        (PTE_VALID_MASK | APERTURE_MASK | VOLATILE_MASK | PTE_ENCRYPTED_MASK | PTE_PRIVILEGE_MASK)
            & PTE_READ_ONLY_MASK == 0,
        (PTE_VALID_MASK | APERTURE_MASK | VOLATILE_MASK | PTE_ENCRYPTED_MASK | PTE_PRIVILEGE_MASK
            | PTE_READ_ONLY_MASK) & PTE_ATOMIC_DISABLE_MASK == 0,
        (PTE_VALID_MASK | APERTURE_MASK | VOLATILE_MASK | PTE_ENCRYPTED_MASK | PTE_PRIVILEGE_MASK
            | PTE_READ_ONLY_MASK | PTE_ATOMIC_DISABLE_MASK) & FRAME_VID_MASK == 0,
        (PTE_VALID_MASK | APERTURE_MASK | VOLATILE_MASK | PTE_ENCRYPTED_MASK | PTE_PRIVILEGE_MASK
            | PTE_READ_ONLY_MASK | PTE_ATOMIC_DISABLE_MASK | FRAME_SYS_MASK) & PTE_KIND_MASK == 0,
        (PDE_VALID_INVERTED_MASK | APERTURE_MASK | VOLATILE_MASK | PDE_NO_ATS_MASK)
            & FRAME_SYS_MASK == 0,
        PDE_VALID_INVERTED_MASK & (APERTURE_MASK | VOLATILE_MASK | PDE_NO_ATS_MASK) == 0,
        APERTURE_MASK & (VOLATILE_MASK | PDE_NO_ATS_MASK) == 0,
        VOLATILE_MASK & PDE_NO_ATS_MASK == 0,
        FRAME_VID_MASK & FRAME_SYS_MASK == FRAME_VID_MASK,
{
    assert((field_fits(PTE_VALID_MASK, 0)) && (field_fits(APERTURE_MASK, 1)) && (field_fits(VOLATILE_MASK, 3)) && (field_fits(PTE_ENCRYPTED_MASK, 4)) && (field_fits(PTE_PRIVILEGE_MASK, 5)) && (field_fits(PTE_READ_ONLY_MASK, 6)) && (field_fits(PTE_ATOMIC_DISABLE_MASK, 7)) && (field_fits(FRAME_SYS_MASK, 8)) && (field_fits(FRAME_VID_MASK, 8)) && (field_fits(PEER_ID_MASK, 33)) && (field_fits(PTE_COMPTAGLINE_MASK, 36)) && (field_fits(PTE_KIND_MASK, 56)) && (field_fits(PDE_NO_ATS_MASK, 5)) && (field_max(FRAME_VID_MASK, 8) == FRAME_VID_MAX) && (PTE_VALID_MASK & APERTURE_MASK == 0) && ((PTE_VALID_MASK | APERTURE_MASK) & VOLATILE_MASK == 0) && ((PTE_VALID_MASK | APERTURE_MASK | VOLATILE_MASK) & PTE_ENCRYPTED_MASK == 0) && ((PTE_VALID_MASK | APERTURE_MASK | VOLATILE_MASK | PTE_ENCRYPTED_MASK) & PTE_PRIVILEGE_MASK
            == 0) && ((PTE_VALID_MASK | APERTURE_MASK | VOLATILE_MASK | PTE_ENCRYPTED_MASK | PTE_PRIVILEGE_MASK)
            & PTE_READ_ONLY_MASK == 0) && ((PTE_VALID_MASK | APERTURE_MASK | VOLATILE_MASK | PTE_ENCRYPTED_MASK | PTE_PRIVILEGE_MASK
            | PTE_READ_ONLY_MASK) & PTE_ATOMIC_DISABLE_MASK == 0) && ((PTE_VALID_MASK | APERTURE_MASK | VOLATILE_MASK | PTE_ENCRYPTED_MASK | PTE_PRIVILEGE_MASK
            | PTE_READ_ONLY_MASK | PTE_ATOMIC_DISABLE_MASK) & FRAME_VID_MASK == 0) && ((PTE_VALID_MASK | APERTURE_MASK | VOLATILE_MASK | PTE_ENCRYPTED_MASK | PTE_PRIVILEGE_MASK
            | PTE_READ_ONLY_MASK | PTE_ATOMIC_DISABLE_MASK | FRAME_SYS_MASK) & PTE_KIND_MASK == 0) && ((PDE_VALID_INVERTED_MASK | APERTURE_MASK | VOLATILE_MASK | PDE_NO_ATS_MASK)
            & FRAME_SYS_MASK == 0) && (PDE_VALID_INVERTED_MASK & (APERTURE_MASK | VOLATILE_MASK | PDE_NO_ATS_MASK) == 0) && (APERTURE_MASK & (VOLATILE_MASK | PDE_NO_ATS_MASK) == 0) && (VOLATILE_MASK & PDE_NO_ATS_MASK == 0) && (FRAME_VID_MASK & FRAME_SYS_MASK == FRAME_VID_MASK)) by (bit_vector);
}

} // verus!

verus! {

/// The index an MMU v2 virtual address selects at each level is the address's
/// digit at that level, read arithmetically: the `PTE` level takes the 9 bits
/// above the 4 KiB page offset, the `PDE0` level (L3) the next 8, the `PDE1`
/// (L2) and `PDE2` (L1) levels 9 each above those, and the root the 2 bits
/// 48:47; there is no L5 index. Together with the page offset the indices
/// give back the low 49 bits of the address.
pub proof fn lemma_v2_level_indices_are_address_digits(va: VirtualAddressV2)
    ensures
        va.level_index_spec(PageTableLevel::L4) == (va@ / 0x1000) % 0x200,
        va.level_index_spec(PageTableLevel::L3) == (va@ / 0x20_0000) % 0x100,
        va.level_index_spec(PageTableLevel::L2) == (va@ / 0x2000_0000) % 0x200,
        va.level_index_spec(PageTableLevel::L1) == (va@ / 0x40_0000_0000) % 0x200,
        va.level_index_spec(PageTableLevel::Pdb) == (va@ / 0x8000_0000_0000) % 0x4,
        va.level_index_spec(PageTableLevel::L5) == 0,
        va@ % 0x1000 + va.level_index_spec(PageTableLevel::L4) * 0x1000
            + va.level_index_spec(PageTableLevel::L3) * 0x20_0000 + va.level_index_spec(
            PageTableLevel::L2,
        ) * 0x2000_0000 + va.level_index_spec(PageTableLevel::L1) * 0x40_0000_0000
            + va.level_index_spec(PageTableLevel::Pdb) * 0x8000_0000_0000 == va@
            % 0x2_0000_0000_0000,
{
    let v = va@;
    assert(((v & 0x1f_f000u64) >> 12u64) == (v / 0x1000) % 0x200 && ((v & 0x1fe0_0000u64) >> 21u64)
        == (v / 0x20_0000) % 0x100 && ((v & 0x3f_e000_0000u64) >> 29u64) == (v / 0x2000_0000)
        % 0x200 && ((v & 0x7fc0_0000_0000u64) >> 38u64) == (v / 0x40_0000_0000) % 0x200 && ((v
        & 0x1_8000_0000_0000u64) >> 47u64) == (v / 0x8000_0000_0000) % 0x4 && (v & 0xfffu64) >> 0u64
        == v % 0x1000) by (bit_vector);
    lemma_v2_va_decomposition(v);
}

/// An MMU v2 `PDE` is valid exactly when bit 0 of its word (the inverted
/// valid bit) is clear and its 2-bit aperture field (bits 2:1) is not zero,
/// whichever of the three memories that field names.
pub proof fn lemma_v2_pde_valid_iff(pde: Pde)
    ensures
        pde.is_valid_spec() <==> (pde@ % 2 == 0 && (pde@ / 2) % 4 != 0),
        (pde@ / 2) % 4 == 3 ==> pde.aperture_spec() == AperturePde::SystemNonCoherent,
        (pde@ / 2) % 4 == 2 ==> pde.aperture_spec() == AperturePde::SystemCoherent,
        (pde@ / 2) % 4 == 1 ==> pde.aperture_spec() == AperturePde::VideoMemory,
        (pde@ / 2) % 4 == 0 ==> pde.aperture_spec() == AperturePde::Invalid,
{
    let v = pde@;
    assert(((v & 1u64) >> 0u64) == v % 2 && ((v & 6u64) >> 1u64) == (v / 2) % 4) by (bit_vector);
}

/// Whether a dual `PDE` has a big page table depends on its big word alone:
/// bit 0 clear and a non-zero aperture field, whatever the small word holds;
/// likewise whether it has a small page table depends on its small word alone.
pub proof fn lemma_v2_dual_pde_pointers_independent(dual: DualPde)
    ensures
        dual.has_big_spec() <==> (dual.big@ % 2 == 0 && (dual.big@ / 2) % 4 != 0),
        dual.has_small_spec() <==> (dual.small@ % 2 == 0 && (dual.small@ / 2) % 4 != 0),
{
    lemma_v2_pde_valid_iff(dual.big);
    lemma_v2_pde_valid_iff(dual.small);
}

} // verus!
