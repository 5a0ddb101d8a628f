use bump_allocator::AllocError;
use bump_allocator::EarlyAllocator;

const PAGE: usize = 0x1000;

fn region() -> EarlyAllocator<PAGE> {
    let mut a = EarlyAllocator::<PAGE>::new();
    a.init(0x1000, 0x4000);
    a
}

#[test]
fn end_to_end_scenario() {
    let mut a = region();
    assert_eq!(a.alloc_bytes(0x10, 0x8), Ok(0x1000));
    assert_eq!(a.used_bytes(), 0x10);
    assert_eq!(a.alloc_pages(1, PAGE), Ok(0x4000));
    assert_eq!(a.used_pages(), 1);
    let used_b = a.used_bytes();
    let avail_b = a.available_bytes();
    let used_p = a.used_pages();
    assert_eq!(a.alloc_pages(3, PAGE), Err(AllocError::NoMemory));
    assert_eq!(a.used_bytes(), used_b);
    assert_eq!(a.available_bytes(), avail_b);
    assert_eq!(a.used_pages(), used_p);
}

#[test]
fn fresh_region_gauges() {
    let a = region();
    assert_eq!(a.used_bytes(), 0);
    assert_eq!(a.available_bytes(), 0x4000);
    assert_eq!(a.total_bytes(), 0x4000);
    assert_eq!(a.used_pages(), 0);
    assert_eq!(a.available_pages(), 4);
    assert_eq!(a.total_pages(), 4);
}

#[test]
fn unaligned_region_end_rounds_down() {
    let mut a = EarlyAllocator::<PAGE>::new();
    a.init(0x1000, 0x4800);
    assert_eq!(a.total_pages(), 4);
    assert_eq!(a.total_bytes(), 0x4000);
    assert_eq!(a.alloc_pages(1, PAGE), Ok(0x4000));
}

#[test]
fn byte_alignment_is_honored() {
    let mut a = region();
    assert_eq!(a.alloc_bytes(0x10, 0x8), Ok(0x1000));
    assert_eq!(a.alloc_bytes(0x10, 0x100), Ok(0x1100));
    assert_eq!(a.used_bytes(), 0x110);
}

#[test]
fn page_alignment_coarser_than_page_is_honored() {
    let mut a = EarlyAllocator::<PAGE>::new();
    a.init(0x1000, 0x8000);
    assert_eq!(a.alloc_pages(1, 0x2000), Ok(0x8000));
    assert_eq!(a.used_pages(), 1);
}

#[test]
fn byte_exhaustion_changes_nothing() {
    let mut a = region();
    assert_eq!(a.alloc_bytes(0x10, 0x8), Ok(0x1000));
    let used = a.used_bytes();
    let avail = a.available_bytes();
    assert_eq!(a.alloc_bytes(0x4000, 0x8), Err(AllocError::NoMemory));
    assert_eq!(a.used_bytes(), used);
    assert_eq!(a.available_bytes(), avail);
    assert_eq!(a.alloc_bytes(avail, 1), Ok(0x1010));
}

#[test]
fn page_exhaustion_changes_nothing() {
    let mut a = region();
    assert_eq!(a.alloc_pages(5, PAGE), Err(AllocError::NoMemory));
    assert_eq!(a.used_pages(), 0);
    assert_eq!(a.alloc_pages(4, PAGE), Ok(0x1000));
    assert_eq!(a.alloc_pages(1, PAGE), Err(AllocError::NoMemory));
}

#[test]
fn accounting_holds_across_operations() {
    let mut a = region();
    assert_eq!(a.used_bytes() + a.available_bytes(), a.total_bytes());
    assert_eq!(a.used_pages() + a.available_pages(), a.total_pages());
    let p = a.alloc_bytes(0x123, 0x10).unwrap();
    assert_eq!(a.used_bytes() + a.available_bytes(), a.total_bytes());
    assert_eq!(a.used_pages() + a.available_pages(), a.total_pages());
    a.alloc_pages(2, PAGE).unwrap();
    assert_eq!(a.used_bytes() + a.available_bytes(), a.total_bytes());
    assert_eq!(a.used_pages() + a.available_pages(), a.total_pages());
    a.dealloc(p, 0x123);
    assert_eq!(a.used_bytes() + a.available_bytes(), a.total_bytes());
    assert_eq!(a.used_pages() + a.available_pages(), a.total_pages());
}

#[test]
fn bulk_reclamation_in_any_order() {
    let mut a = region();
    let p1 = a.alloc_bytes(0x10, 1).unwrap();
    let p2 = a.alloc_bytes(0x20, 1).unwrap();
    let p3 = a.alloc_bytes(0x30, 1).unwrap();
    assert_eq!((p1, p2, p3), (0x1000, 0x1010, 0x1030));
    a.dealloc(p2, 0x20);
    assert_eq!(a.used_bytes(), 0x60);
    a.dealloc(p3, 0x30);
    assert_eq!(a.used_bytes(), 0x60);
    a.dealloc(p1, 0x10);
    assert_eq!(a.used_bytes(), 0);
    assert_eq!(a.alloc_bytes(0x40, 1), Ok(0x1000));
}

#[test]
fn dealloc_saturates_on_misuse() {
    let mut a = region();
    let p = a.alloc_bytes(0x10, 1).unwrap();
    a.dealloc(p, 0x100);
    assert_eq!(a.used_bytes(), 0);
    assert_eq!(a.alloc_bytes(0x8, 1), Ok(0x1000));
}

#[test]
fn page_permanence() {
    let mut a = region();
    let p = a.alloc_pages(2, PAGE).unwrap();
    assert_eq!(a.used_pages(), 2);
    a.dealloc_pages(p, 2);
    assert_eq!(a.used_pages(), 2);
    assert_eq!(a.available_pages(), 2);
}

#[test]
fn add_memory_is_unsupported() {
    let mut a = region();
    assert_eq!(a.add_memory(0x10000, 0x1000), Err(AllocError::Unsupported));
    assert_eq!(a.total_bytes(), 0x4000);
    assert_eq!(a.total_pages(), 4);
}

#[test]
fn zero_size_requests() {
    let mut a = region();
    assert_eq!(a.alloc_bytes(0, 1), Ok(0x1000));
    assert_eq!(a.used_bytes(), 0);
    assert_eq!(a.alloc_pages(0, PAGE), Ok(0x5000));
    assert_eq!(a.used_pages(), 0);
}
