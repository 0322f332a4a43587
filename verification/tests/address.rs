use core::ops::Range;
use vmm::address::{PhysicalAddress, VirtualAddress};
use vmm::align::{align_down_raw, checked_align_up_raw};
use vmm::range::AddressRangeExt;

#[test]
fn address_keeps_raw_value() {
    assert_eq!(VirtualAddress::new(0x1000).as_raw(), 0x1000);
    assert_eq!(PhysicalAddress::new(0x8020_0000).as_raw(), 0x8020_0000);
    assert_eq!(VirtualAddress::new(0), VirtualAddress(0));
}

#[test]
fn checked_add_moves_up() {
    assert_eq!(VirtualAddress(0x1000).checked_add(0x234), Some(VirtualAddress(0x1234)));
    assert_eq!(PhysicalAddress(0x1000).checked_add(0), Some(PhysicalAddress(0x1000)));
    assert_eq!(VirtualAddress(usize::MAX - 1).checked_add(1), Some(VirtualAddress(usize::MAX)));
}

#[test]
fn checked_add_reports_overflow() {
    assert_eq!(VirtualAddress(usize::MAX).checked_add(1), None);
    assert_eq!(PhysicalAddress(usize::MAX - 4).checked_add(5), None);
    assert_eq!(VirtualAddress(1).checked_add(usize::MAX), None);
}

#[test]
fn checked_sub_moves_down() {
    assert_eq!(VirtualAddress(0x1234).checked_sub(0x234), Some(VirtualAddress(0x1000)));
    assert_eq!(PhysicalAddress(7).checked_sub(7), Some(PhysicalAddress(0)));
}

#[test]
fn checked_sub_reports_underflow() {
    assert_eq!(VirtualAddress(0).checked_sub(1), None);
    assert_eq!(PhysicalAddress(0x1000).checked_sub(0x1001), None);
}

#[test]
fn offset_between_addresses() {
    assert_eq!(VirtualAddress(0x3000).checked_offset_from(VirtualAddress(0x1000)), Some(0x2000));
    assert_eq!(VirtualAddress(0x1000).checked_offset_from(VirtualAddress(0x1000)), Some(0));
    assert_eq!(VirtualAddress(0x1000).checked_offset_from(VirtualAddress(0x1001)), None);
    assert_eq!(PhysicalAddress(usize::MAX).checked_offset_from(PhysicalAddress(0)), Some(usize::MAX));
}

#[test]
fn alignment_is_divisibility() {
    assert!(VirtualAddress(0x2000).is_aligned(0x1000));
    assert!(!VirtualAddress(0x2001).is_aligned(0x1000));
    assert!(VirtualAddress(0).is_aligned(4096));
    assert!(PhysicalAddress(12).is_aligned(3));
    assert!(!PhysicalAddress(13).is_aligned(3));
    assert!(VirtualAddress(usize::MAX).is_aligned(1));
}

#[test]
fn align_down_rounds_to_lower_boundary() {
    assert_eq!(VirtualAddress(0x1234).align_down(0x1000), VirtualAddress(0x1000));
    assert_eq!(VirtualAddress(0x1000).align_down(0x1000), VirtualAddress(0x1000));
    assert_eq!(VirtualAddress(0xfff).align_down(0x1000), VirtualAddress(0));
    assert_eq!(PhysicalAddress(usize::MAX).align_down(0x1000), PhysicalAddress(usize::MAX - 0xfff));
    assert_eq!(PhysicalAddress(10).align_down(3), PhysicalAddress(9));
    assert_eq!(align_down_raw(0x2_0000_1fff, 0x20_0000), 0x2_0000_0000);
}

#[test]
fn align_up_rounds_to_upper_boundary() {
    assert_eq!(VirtualAddress(0x1234).checked_align_up(0x1000), Some(VirtualAddress(0x2000)));
    assert_eq!(VirtualAddress(0x1000).checked_align_up(0x1000), Some(VirtualAddress(0x1000)));
    assert_eq!(VirtualAddress(1).checked_align_up(0x1000), Some(VirtualAddress(0x1000)));
    assert_eq!(PhysicalAddress(10).checked_align_up(3), Some(PhysicalAddress(12)));
    assert_eq!(checked_align_up_raw(0, 4096), Some(0));
}

#[test]
fn align_up_reports_overflow() {
    assert_eq!(VirtualAddress(usize::MAX).checked_align_up(0x1000), None);
    assert_eq!(PhysicalAddress(usize::MAX - 0xffe).checked_align_up(0x1000), None);
    assert_eq!(
        PhysicalAddress(usize::MAX - 0xfff).checked_align_up(0x1000),
        Some(PhysicalAddress(usize::MAX - 0xfff))
    );
    assert_eq!(checked_align_up_raw(usize::MAX, 2), None);
}

#[test]
fn page_number_and_offset_split_an_address() {
    let addr = VirtualAddress(0x1234_5678);
    assert_eq!(addr.page_number(4096), 0x12345);
    assert_eq!(addr.page_offset(4096), 0x678);
    assert_eq!(addr.page_number(4096) * 4096 + addr.page_offset(4096), addr.as_raw());
    assert_eq!(PhysicalAddress(4095).page_number(4096), 0);
    assert_eq!(PhysicalAddress(4096).page_number(4096), 1);
    assert_eq!(PhysicalAddress(4096).page_offset(4096), 0);
}

#[test]
fn next_page_boundary_after_rounding_down() {
    let page = 4096;
    for raw in [0usize, 1, 0xfff, 0x1000, 0x1001, 0x3fff_ffff_ffff, 0xffff_ffc0_0000_0123] {
        let addr = VirtualAddress(raw);
        let down = addr.align_down(page);
        let next = down.checked_add(page).unwrap();
        assert!(next.is_aligned(page));
        assert!(addr < next);
        assert!(next.as_raw() - addr.as_raw() <= page);
        assert_eq!(next.align_down(page), next);
        assert_eq!(down.align_down(page), down);
        assert_eq!(next.page_number(page), addr.page_number(page) + 1);
    }
    assert_eq!(VirtualAddress(0x1234).align_down(page).checked_add(page), Some(VirtualAddress(0x2000)));
}

#[test]
fn last_page_has_no_next_boundary() {
    let down = VirtualAddress(usize::MAX).align_down(4096);
    assert_eq!(down, VirtualAddress(usize::MAX - 0xfff));
    assert_eq!(down.checked_add(4096), None);
}

#[test]
fn addresses_order_by_raw_value() {
    assert!(VirtualAddress(1) < VirtualAddress(2));
    assert!(VirtualAddress(2) <= VirtualAddress(2));
    assert!(VirtualAddress(3) > VirtualAddress(2));
    assert!(PhysicalAddress(0) < PhysicalAddress(usize::MAX));
    assert!(!(PhysicalAddress(5) < PhysicalAddress(5)));
    assert_eq!(VirtualAddress(7).partial_cmp(&VirtualAddress(9)), Some(core::cmp::Ordering::Less));
    assert_eq!(PhysicalAddress(9).partial_cmp(&PhysicalAddress(9)), Some(core::cmp::Ordering::Equal));
    assert_eq!(PhysicalAddress(9).partial_cmp(&PhysicalAddress(7)), Some(core::cmp::Ordering::Greater));
    assert_eq!(VirtualAddress(7).cmp(&VirtualAddress(9)), core::cmp::Ordering::Less);
    let mut sorted = vec![VirtualAddress(3), VirtualAddress(1), VirtualAddress(2)];
    sorted.sort();
    assert_eq!(sorted, vec![VirtualAddress(1), VirtualAddress(2), VirtualAddress(3)]);
}

fn virt(start: usize, end: usize) -> Range<VirtualAddress> {
    VirtualAddress(start)..VirtualAddress(end)
}

fn phys(start: usize, end: usize) -> Range<PhysicalAddress> {
    PhysicalAddress(start)..PhysicalAddress(end)
}

#[test]
fn concat_of_adjacent_ranges() {
    assert_eq!(virt(0x1000, 0x2000).concat(virt(0x2000, 0x3000)), virt(0x1000, 0x3000));
    assert_eq!(virt(0x2000, 0x3000).concat(virt(0x1000, 0x2000)), virt(0x1000, 0x3000));
    assert_eq!(phys(0, 0x1000).concat(phys(0x1000, 0x2000)), phys(0, 0x2000));
}

#[test]
fn concat_of_overlapping_ranges() {
    assert_eq!(virt(0x1000, 0x3000).concat(virt(0x2000, 0x4000)), virt(0x1000, 0x4000));
    assert_eq!(virt(0x1000, 0x5000).concat(virt(0x2000, 0x3000)), virt(0x1000, 0x5000));
    assert_eq!(phys(0x2000, 0x3000).concat(phys(0x1000, 0x5000)), phys(0x1000, 0x5000));
    assert_eq!(virt(0x1000, 0x2000).concat(virt(0x1000, 0x2000)), virt(0x1000, 0x2000));
}

#[test]
fn concat_of_ranges_with_a_gap_covers_the_gap() {
    assert_eq!(virt(0x1000, 0x2000).concat(virt(0x5000, 0x6000)), virt(0x1000, 0x6000));
    assert_eq!(phys(0x5000, 0x6000).concat(phys(0x1000, 0x2000)), phys(0x1000, 0x6000));
}

#[test]
fn size_of_a_range() {
    assert_eq!(virt(0x1000, 0x3000).size(), 0x2000);
    assert_eq!(virt(0x1000, 0x1000).size(), 0);
    assert_eq!(virt(0x2000, 0x1000).size(), 0);
    assert_eq!(phys(0, usize::MAX).size(), usize::MAX);
    assert_eq!(phys(5, 6).size(), 1);
}

#[test]
fn ranges_touch_when_nothing_lies_between() {
    assert!(virt(0x1000, 0x2000).touches(&virt(0x2000, 0x3000)));
    assert!(virt(0x2000, 0x3000).touches(&virt(0x1000, 0x2000)));
    assert!(virt(0x1000, 0x3000).touches(&virt(0x2000, 0x4000)));
    assert!(!virt(0x1000, 0x2000).touches(&virt(0x2001, 0x3000)));
    assert!(!phys(0x3000, 0x4000).touches(&phys(0x1000, 0x2fff)));
    assert!(phys(0x3000, 0x4000).touches(&phys(0x1000, 0x3000)));
}
