use vmm::address::VirtualAddress;
use vmm::error::{Error, PlatformFault};
use vmm::mode::{
    Invalidation, MemoryMode, Mode, Sv39, Sv48, Sv57, INDEX_BITS, PAGE_SHIFT, PAGE_SIZE,
    TABLE_ENTRIES,
};

#[test]
fn level_counts_of_the_modes() {
    assert_eq!(MemoryMode::Riscv64Sv39.levels(), 3);
    assert_eq!(MemoryMode::Riscv64Sv48.levels(), 4);
    assert_eq!(MemoryMode::Riscv64Sv57.levels(), 5);
    assert_eq!(Sv39::levels(), 3);
    assert_eq!(Sv48::levels(), 4);
    assert_eq!(Sv57::levels(), 5);
}

#[test]
fn each_type_stands_for_its_mode() {
    assert_eq!(Sv39::memory_mode(), MemoryMode::Riscv64Sv39);
    assert_eq!(Sv48::memory_mode(), MemoryMode::Riscv64Sv48);
    assert_eq!(Sv57::memory_mode(), MemoryMode::Riscv64Sv57);
    for _ in 0..3 {
        assert_eq!(Sv39::levels(), 3);
        assert_ne!(Sv39::levels(), Sv48::levels());
        assert_ne!(Sv39::levels(), Sv57::levels());
        assert_ne!(Sv48::levels(), Sv57::levels());
    }
}

#[test]
fn address_widths_of_the_modes() {
    assert_eq!(MemoryMode::Riscv64Sv39.virtual_address_bits(), 39);
    assert_eq!(MemoryMode::Riscv64Sv48.virtual_address_bits(), 48);
    assert_eq!(MemoryMode::Riscv64Sv57.virtual_address_bits(), 57);
    assert_eq!(Sv39::virtual_address_bits(), 39);
    assert_eq!(Sv48::virtual_address_bits(), 48);
    assert_eq!(Sv57::virtual_address_bits(), 57);
}

#[test]
fn tables_have_the_same_shape_in_every_mode() {
    assert_eq!(PAGE_SIZE, 4096);
    assert_eq!(PAGE_SHIFT, 12);
    assert_eq!(INDEX_BITS, 9);
    assert_eq!(TABLE_ENTRIES, 512);
    for mode in [MemoryMode::Riscv64Sv39, MemoryMode::Riscv64Sv48, MemoryMode::Riscv64Sv57] {
        assert_eq!(mode.page_size(), 4096);
        assert_eq!(mode.entries_per_table(), 512);
        for level in 0..mode.levels() {
            assert_eq!(mode.index_bits(level), 9);
        }
        assert_eq!(mode.virtual_address_bits(), 12 + 9 * mode.levels());
    }
    assert_eq!(Sv39::page_size(), 4096);
    assert_eq!(Sv48::page_size(), 4096);
    assert_eq!(Sv57::page_size(), 4096);
}

#[test]
fn span_of_each_level() {
    let mode = MemoryMode::Riscv64Sv57;
    assert_eq!(mode.level_span(0), 1 << 12);
    assert_eq!(mode.level_span(1), 1 << 21);
    assert_eq!(mode.level_span(2), 1 << 30);
    assert_eq!(mode.level_span(3), 1 << 39);
    assert_eq!(mode.level_span(4), 1 << 48);
    assert_eq!(MemoryMode::Riscv64Sv39.level_span(2), 0x4000_0000);
}

#[test]
fn table_index_picks_nine_bits_per_level() {
    let mode = MemoryMode::Riscv64Sv39;
    let addr = VirtualAddress((5 << 30) | (17 << 21) | (511 << 12) | 0x123);
    assert_eq!(mode.table_index(addr, 0), 511);
    assert_eq!(mode.table_index(addr, 1), 17);
    assert_eq!(mode.table_index(addr, 2), 5);
    assert_eq!(mode.table_index(VirtualAddress(0), 0), 0);
    assert_eq!(mode.table_index(VirtualAddress(0xfff), 0), 0);
    assert_eq!(mode.table_index(VirtualAddress(0x1000), 0), 1);
    assert_eq!(mode.table_index(VirtualAddress(0x20_0000), 0), 0);
    assert_eq!(mode.table_index(VirtualAddress(0x20_0000), 1), 1);

    let wide = MemoryMode::Riscv64Sv57;
    let addr = VirtualAddress((300 << 48) | (1 << 39) | (2 << 30) | (3 << 21) | (4 << 12));
    assert_eq!(wide.table_index(addr, 0), 4);
    assert_eq!(wide.table_index(addr, 1), 3);
    assert_eq!(wide.table_index(addr, 2), 2);
    assert_eq!(wide.table_index(addr, 3), 1);
    assert_eq!(wide.table_index(addr, 4), 300 % 512);
    assert_eq!(wide.table_index(VirtualAddress(usize::MAX), 4), 511);
    assert_eq!(MemoryMode::Riscv64Sv48.table_index(VirtualAddress(usize::MAX), 3), 511);
}

#[test]
fn canonical_addresses_of_sv39() {
    let mode = MemoryMode::Riscv64Sv39;
    assert!(mode.is_canonical(VirtualAddress(0)));
    assert!(mode.is_canonical(VirtualAddress(0x3f_ffff_ffff)));
    assert!(!mode.is_canonical(VirtualAddress(0x40_0000_0000)));
    assert!(!mode.is_canonical(VirtualAddress(0xffff_ffbf_ffff_ffff)));
    assert!(mode.is_canonical(VirtualAddress(0xffff_ffc0_0000_0000)));
    assert!(mode.is_canonical(VirtualAddress(usize::MAX)));
}

#[test]
fn canonical_addresses_of_sv48_and_sv57() {
    let sv48 = MemoryMode::Riscv64Sv48;
    assert!(sv48.is_canonical(VirtualAddress(0x7fff_ffff_ffff)));
    assert!(!sv48.is_canonical(VirtualAddress(0x8000_0000_0000)));
    assert!(!sv48.is_canonical(VirtualAddress(0xffff_7fff_ffff_ffff)));
    assert!(sv48.is_canonical(VirtualAddress(0xffff_8000_0000_0000)));
    let sv57 = MemoryMode::Riscv64Sv57;
    assert!(sv57.is_canonical(VirtualAddress(0xff_ffff_ffff_ffff)));
    assert!(!sv57.is_canonical(VirtualAddress(0x100_0000_0000_0000)));
    assert!(!sv57.is_canonical(VirtualAddress(0xfeff_ffff_ffff_ffff)));
    assert!(sv57.is_canonical(VirtualAddress(0xff00_0000_0000_0000)));
    assert!(sv57.is_canonical(VirtualAddress(0x40_0000_0000)));
}

#[test]
fn invalidation_describes_its_range() {
    let request = Invalidation { asid: 3, start: VirtualAddress(0x1000), end: VirtualAddress(0x3000) };
    assert_eq!(request.range(), VirtualAddress(0x1000)..VirtualAddress(0x3000));
    assert_eq!(request.size(), 0x2000);
    let inverted = Invalidation { asid: 3, start: VirtualAddress(0x3000), end: VirtualAddress(0x1000) };
    assert_eq!(inverted.size(), 0);
}

#[test]
fn invalidate_range_calls_the_platform_once() {
    let mut calls = Vec::new();
    let r = Sv39::invalidate_range(9, VirtualAddress(0x1000)..VirtualAddress(0x3000), |request| {
        calls.push(request);
        Ok(())
    });
    assert_eq!(r, Ok(()));
    assert_eq!(
        calls,
        vec![Invalidation { asid: 9, start: VirtualAddress(0x1000), end: VirtualAddress(0x3000) }]
    );
}

#[test]
fn invalidate_range_wraps_the_platform_fault() {
    let r = Sv48::invalidate_range(1, VirtualAddress(0)..VirtualAddress(0x1000), |_| {
        Err(PlatformFault { code: -3 })
    });
    assert_eq!(r, Err(Error::SBI(PlatformFault { code: -3 })));
}

#[test]
fn invalidate_range_skips_an_empty_range() {
    let mut calls = 0;
    let r = Sv57::invalidate_range(1, VirtualAddress(0x1000)..VirtualAddress(0x1000), |_| {
        calls += 1;
        Err(PlatformFault { code: -1 })
    });
    assert_eq!(r, Ok(()));
    assert_eq!(calls, 0);
    let r = Sv57::invalidate_range(1, VirtualAddress(0x2000)..VirtualAddress(0x1000), |_| {
        calls += 1;
        Err(PlatformFault { code: -1 })
    });
    assert_eq!(r, Ok(()));
    assert_eq!(calls, 0);
}

#[test]
fn platform_fault_converts_into_an_error() {
    assert_eq!(Error::from(PlatformFault { code: -4 }), Error::SBI(PlatformFault { code: -4 }));
    let converted: Error = PlatformFault { code: 0 }.into();
    assert_eq!(converted, Error::SBI(PlatformFault { code: 0 }));
}

#[test]
fn platform_outcome_becomes_a_result_of_the_core() {
    assert_eq!(Error::from_platform(Ok(())), Ok(()));
    assert_eq!(
        Error::from_platform(Err(PlatformFault { code: -5 })),
        Err(Error::SBI(PlatformFault { code: -5 }))
    );
}

#[test]
fn indices_and_offset_recompose_the_address() {
    let mode = MemoryMode::Riscv64Sv48;
    for raw in [0usize, 0xfff, 0x1000, 0x1234_5678_9abc, 0x7fff_ffff_ffff, 0x0000_8000_0000_0000 - 1] {
        let addr = VirtualAddress(raw);
        let mut sum = addr.page_offset(mode.page_size()) as u64;
        for level in 0..mode.levels() {
            sum += mode.table_index(addr, level) as u64 * mode.level_span(level);
        }
        assert_eq!(sum, raw as u64);
    }
    let high = VirtualAddress(0xffff_8000_0000_1000);
    let mut sum = 0u64;
    for level in 0..mode.levels() {
        sum += mode.table_index(high, level) as u64 * mode.level_span(level);
    }
    assert_eq!(sum, 0x8000_0000_1000);
}
