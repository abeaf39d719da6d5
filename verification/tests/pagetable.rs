use lib::bits::{get_field, set_field};
use lib::gpu::Architecture;
use lib::mm::{Pfn, VirtualAddress, VramAddress};
use lib::pagetable::ver2::{DualPde, MmuV2, Pde, Pte, VirtualAddressV2};
use lib::pagetable::{
    AperturePde, AperturePte, DualPdeOps, Mmu, MmuVersion, PageTableLevel, PdeOps, PteOps,
    VaLevelIndex,
};

#[test]
fn pte_new_vram_layout() {
    let pte = Pte::new_vram(Pfn::new(0x1234), true);
    assert_eq!(pte.raw_u64(), 0x12_3401);
    assert!(pte.is_valid());
    assert_eq!(pte.aperture(), AperturePte::VideoMemory);
    assert_eq!(pte.frame_number(), Pfn::new(0x1234));
    assert!(!pte.read_only());

    let ro = Pte::new_vram(Pfn::new(0x1234), false);
    assert_eq!(ro.raw_u64(), 0x12_3441);
    assert!(ro.read_only());
}

#[test]
fn pte_new_vram_cuts_frame_to_25_bits() {
    let pte = Pte::new_vram(Pfn::new(0x200_0001), true);
    assert_eq!(pte.frame_number().raw(), 1);
}

#[test]
fn pte_invalid_is_zero() {
    let pte = Pte::invalid();
    assert_eq!(pte.raw_u64(), 0);
    assert!(!pte.is_valid());
}

#[test]
fn pte_frame_number_follows_aperture() {
    // System coherent aperture (2), frame bits above bit 32 set.
    let raw = (1u64 << 40) | (0x5 << 8) | (2 << 1) | 1;
    let pte = Pte::new(raw);
    assert_eq!(pte.aperture(), AperturePte::SystemCoherent);
    assert_eq!(pte.frame_number().raw(), (1u64 << 32) | 0x5);
    // The same frame bits in video memory keep only bits 32:8.
    let vid = Pte::new(raw & !0x6);
    assert_eq!(vid.frame_number().raw(), 0x5);
}

#[test]
fn pte_field_getters() {
    let raw = 0xab00_0000_0000_0000u64 | (0x3ffffu64 << 36) | (0x5u64 << 33) | 0xf8;
    let pte = Pte::new(raw);
    assert_eq!(pte.kind(), 0xab);
    assert_eq!(pte.comptagline(), 0x3ffff);
    assert_eq!(pte.peer_id(), 0x5);
    assert!(pte.volatile());
    assert!(pte.encrypted());
    assert!(pte.privilege());
    assert!(pte.read_only());
    assert!(pte.atomic_disable());
    assert!(!pte.valid());
}

#[test]
fn pde_new_vram_layout() {
    let pde = Pde::new_vram(Pfn::new(0x10));
    assert_eq!(pde.raw_u64(), 0x1002);
    assert!(pde.is_valid());
    assert_eq!(PdeOps::aperture(&pde), AperturePde::VideoMemory);
    assert_eq!(pde.table_frame(), Pfn::new(0x10));
    assert_eq!(pde.table_vram_address(), VramAddress::new(0x10000));
}

#[test]
fn pde_validity() {
    // Cleared entry: inverted valid bit reads "valid" but the aperture is invalid.
    assert!(!Pde::new(0).is_valid());
    // Inverted valid bit set: invalid even with a VRAM aperture.
    assert!(!Pde::new(0x3).is_valid());
    assert!(Pde::new(0x4).is_valid());
    assert_eq!(PdeOps::aperture(&Pde::new(0x4)), AperturePde::SystemCoherent);
}

#[test]
fn pde_table_frame_follows_aperture() {
    let raw = (1u64 << 45) | (0x7 << 8) | (3 << 1);
    let pde = Pde::new(raw);
    assert_eq!(pde.table_frame().raw(), (1u64 << 37) | 0x7);
    assert_eq!(pde.peer_id(), 0);
    assert!(!pde.no_ats());
    assert!(!pde.volatile());
}

#[test]
fn dual_pde_new_small() {
    let dual = DualPde::new_small(Pfn::new(0x42));
    assert_eq!(dual.big_raw_u64(), 0);
    assert_eq!(dual.small_raw_u64(), 0x4202);
    assert!(dual.has_small());
    assert!(!dual.has_big());
    assert_eq!(dual.small_pfn(), Pfn::new(0x42));
    assert_eq!(dual.small_vram_address().raw(), 0x42000);
}

#[test]
fn dual_pde_raw_round_trip() {
    let dual = DualPde::new(0x1234_5678, 0x9abc_def0);
    assert_eq!(dual.big_raw_u64(), 0x1234_5678);
    assert_eq!(dual.small_raw_u64(), 0x9abc_def0);
    let back = DualPde::new(dual.big_raw_u64(), dual.small_raw_u64());
    assert_eq!(back, dual);
}

#[test]
fn va_level_indices() {
    let raw = (0x3u64 << 47) | (0x1a5 << 38) | (0x0f3 << 29) | (0xcc << 21) | (0x101 << 12) | 0xabc;
    let va = VirtualAddressV2::new(VirtualAddress::new(raw));
    assert_eq!(va.level_index(PageTableLevel::Pdb), 0x3);
    assert_eq!(va.level_index(PageTableLevel::L1), 0x1a5);
    assert_eq!(va.level_index(PageTableLevel::L2), 0x0f3);
    assert_eq!(va.level_index(PageTableLevel::L3), 0xcc);
    assert_eq!(va.level_index(PageTableLevel::L4), 0x101);
    assert_eq!(va.level_index(PageTableLevel::L5), 0);
    assert_eq!(va.offset(), 0xabc);
    let via_mmu = MmuV2::va(VirtualAddress::new(raw));
    assert_eq!(via_mmu, va);
}

#[test]
fn mmu_v2_geometry() {
    assert_eq!(MmuV2::entries_per_page(PageTableLevel::Pdb), 4);
    assert_eq!(MmuV2::entries_per_page(PageTableLevel::L1), 512);
    assert_eq!(MmuV2::entries_per_page(PageTableLevel::L3), 256);
    assert_eq!(MmuV2::entries_per_page(PageTableLevel::L4), 512);
    assert_eq!(MmuV2::entry_size(PageTableLevel::L3), 16);
    assert_eq!(MmuV2::entry_size(PageTableLevel::L2), 8);
    assert_eq!(MmuV2::entry_size(PageTableLevel::L4), 8);
    assert_eq!(MmuV2::pde_level_count(), 4);
    assert_eq!(MmuV2::pte_level(), PageTableLevel::L4);
}

#[test]
fn mmu_v2_pt_pages_upper_bound() {
    assert_eq!(MmuV2::pt_pages_upper_bound(0), 0);
    assert_eq!(MmuV2::pt_pages_upper_bound(1), 5);
    assert_eq!(MmuV2::pt_pages_upper_bound(512), 5);
    assert_eq!(MmuV2::pt_pages_upper_bound(513), 6);
    assert_eq!(MmuV2::pt_pages_upper_bound(512 * 256), 260);
    assert_eq!(MmuV2::pt_pages_upper_bound(512 * 256 + 1), 262);
    assert!(MmuV2::pt_pages_upper_bound(usize::MAX) < usize::MAX);
}

#[test]
fn aperture_conversions() {
    for v in 0u8..4 {
        assert_eq!(u8::from(AperturePte::from(v)), v);
    }
    assert_eq!(AperturePte::from(7), AperturePte::VideoMemory);
    assert_eq!(AperturePde::from(0), AperturePde::Invalid);
    assert_eq!(AperturePde::from(9), AperturePde::Invalid);
    for v in 1u8..4 {
        assert_eq!(u8::from(AperturePde::from(v)), v);
    }
    assert_eq!(AperturePte::default(), AperturePte::VideoMemory);
    assert_eq!(AperturePde::default(), AperturePde::Invalid);
}

#[test]
fn mmu_version_of_architectures() {
    assert_eq!(MmuVersion::from(Architecture::Turing), MmuVersion::V2);
    assert_eq!(MmuVersion::from(Architecture::Ampere), MmuVersion::V2);
    assert_eq!(MmuVersion::from(Architecture::Ada), MmuVersion::V2);
}

#[test]
fn bit_fields_read_back_and_stay_apart() {
    let w = set_field(0xffff_0000_0000_ffff, 0x1_ffff_ff00, 8, 0x1ff_ffff + 5);
    assert_eq!(get_field(w, 0x1_ffff_ff00, 8), 4);
    assert_eq!(get_field(w, 0xff, 0), 0xff);
    assert_eq!(get_field(w, 0xffff_0000_0000_0000, 48), 0xffff);
}

#[test]
fn pte_setters_touch_only_their_field() {
    let pte = Pte::new(u64::MAX).set_read_only(false);
    assert_eq!(pte.raw_u64(), u64::MAX & !0x40);
    let pte = pte.set_aperture(AperturePte::PeerMemory);
    assert_eq!(pte.aperture(), AperturePte::PeerMemory);
    assert_eq!(pte.raw_u64(), (u64::MAX & !0x40 & !0x6) | 0x2);
    let pte = pte.set_frame_number_vid(Pfn::new(0));
    assert_eq!(pte.frame_number_vid().raw(), 0);
    assert_eq!(pte.frame_number_sys().raw(), 0x3f_fffe_0000_0000 >> 8);
}

#[test]
fn va_indices_fit_their_tables_and_recompose() {
    for raw in [0u64, u64::MAX, 0x1_2345_6789_abcd, 0xdead_beef_cafe_f00d] {
        let va = VirtualAddressV2::new(VirtualAddress::new(raw));
        for level in [
            PageTableLevel::Pdb,
            PageTableLevel::L1,
            PageTableLevel::L2,
            PageTableLevel::L3,
            PageTableLevel::L4,
        ] {
            assert!((va.level_index(level) as usize) < MmuV2::entries_per_page(level));
        }
        let back = va.offset()
            + va.pt_idx() * 0x1000
            + va.pde0_idx() * 0x20_0000
            + va.pde1_idx() * 0x2000_0000
            + va.pde2_idx() * 0x40_0000_0000
            + va.pde3_idx() * 0x8000_0000_0000;
        assert_eq!(back, raw % 0x2_0000_0000_0000);
    }
}

#[test]
fn pt_pages_upper_bound_grows_with_pages() {
    let mut last = 0;
    for n in [0usize, 1, 511, 512, 513, 4096, 131_072, 131_073, 1 << 30] {
        let b = MmuV2::pt_pages_upper_bound(n);
        assert!(b >= last);
        assert!(b >= n.div_ceil(512));
        last = b;
    }
}

#[test]
fn pde_setters_touch_only_their_field() {
    let pde = Pde::new(0).set_no_ats(true).set_volatile(true).set_peer_id(0xff);
    assert_eq!(pde.raw_u64(), 0x20 | 0x8 | (0x7 << 33));
    assert!(pde.no_ats());
    assert!(pde.volatile());
    assert_eq!(pde.peer_id(), 7);
    let pde = pde.set_table_frame_sys(Pfn::new(1 << 40));
    assert_eq!(pde.table_frame_sys().raw(), 1 << 40);
    assert_eq!(pde.peer_id(), 0);
}

#[test]
fn pt_pages_upper_bound_closed_form() {
    for n in [0usize, 1, 512, 513, 131_072, 131_073, 1 << 26, (1 << 37) + 3] {
        let closed = n.div_ceil(512)
            + n.div_ceil(1 << 17)
            + n.div_ceil(1 << 26)
            + n.div_ceil(1 << 35)
            + n.div_ceil(1 << 37);
        assert_eq!(MmuV2::pt_pages_upper_bound(n), closed);
        assert!(MmuV2::pt_pages_upper_bound(n) <= n / 256 + 5);
    }
}
