use c_struct_size::layout::{layout_size, FieldLayout};
use c_struct_size::power_mate::struct_size;
use std::alloc::Layout;

#[test]
fn struct_size_is_ok_24() {
    assert_eq!(struct_size(), Ok(24));
}

#[test]
fn struct_size_is_reachable_from_the_crate_root() {
    assert_eq!(c_struct_size::struct_size(), struct_size());
}

#[test]
fn struct_size_is_positive() {
    assert!(matches!(struct_size(), Ok(n) if n > 0));
}

#[test]
fn struct_size_repeats_itself() {
    let first = struct_size();
    for _ in 0..100 {
        assert_eq!(struct_size(), first);
    }
}

#[test]
fn struct_size_is_the_sum_of_the_widths() {
    let bits: usize = 64 + 64 + 16 + 16 + 32;
    assert_eq!(struct_size(), Ok(bits / 8));
}

#[test]
fn struct_size_matches_the_platform_layout() {
    let record = Layout::new::<i64>()
        .extend(Layout::new::<i64>())
        .unwrap()
        .0
        .extend(Layout::new::<u16>())
        .unwrap()
        .0
        .extend(Layout::new::<u16>())
        .unwrap()
        .0
        .extend(Layout::new::<u32>())
        .unwrap()
        .0
        .pad_to_align();
    assert_eq!(struct_size(), Ok(record.size()));
}

#[test]
fn struct_size_matches_the_members_laid_out_by_hand() {
    let fields = [
        FieldLayout::of::<i64>(),
        FieldLayout::of::<i64>(),
        FieldLayout::of::<u16>(),
        FieldLayout::of::<u16>(),
        FieldLayout::of::<u32>(),
    ];
    assert_eq!(struct_size(), layout_size(&fields));
}
