use uefi_model::memory::{alloc_from_pool, page_start, Allocator, dealloc, AllocPlacement, PageAllocator, Pages, PAGE_SIZE};
use uefi_model::status::{Status, OUT_OF_RESOURCES, SUCCESS};
use std::cell::Cell;
use uefi_model::firmware::LOADER_DATA;

/// Allocates `size` bytes aligned to `align` from a pool that hands out
/// `pool_addr`, then frees it, checking what the pool is asked for.
fn alloc_fill_free(size: usize, align: usize, pool_addr: usize) -> AllocPlacement {
    let requested = Cell::new(0usize);
    let placement = alloc_from_pool(size, align, |ty: u32, n: usize| {
        assert_eq!(ty, LOADER_DATA);
        requested.set(n);
        Ok(pool_addr)
    });
    assert_eq!(placement.ptr % align, 0);
    assert!(placement.ptr >= pool_addr);
    assert!(placement.ptr + size <= pool_addr + requested.get());

    let freed = Cell::new(0usize);
    let stored = match placement.stash {
        Some(_) => pool_addr,
        None => 0,
    };
    let r = dealloc(placement.ptr, align, stored, |p: usize| {
        freed.set(p);
        Ok(())
    });
    assert_eq!(r, Ok(()));
    assert_eq!(freed.get(), pool_addr);
    placement
}

#[test]
fn test_alloc() {
    let p = alloc_fill_free(128, 4, 0x1000);
    assert_eq!(p, AllocPlacement { ptr: 0x1000, stash: None });

    let p = alloc_fill_free(128, 16, 0x1008);
    assert_eq!(p, AllocPlacement { ptr: 0x1010, stash: Some(0x1008) });
}

#[test]
fn large_alignment_on_aligned_pool_memory_moves_a_whole_alignment() {
    let p = alloc_fill_free(64, 32, 0x2000);
    assert_eq!(p, AllocPlacement { ptr: 0x2020, stash: Some(0x2018) });
}

#[test]
fn pool_request_is_padded_by_large_alignments() {
    let asked = Cell::new(0usize);
    alloc_from_pool(100, 64, |ty: u32, n: usize| {
        assert_eq!(ty, LOADER_DATA);
        asked.set(n);
        Ok(0x4000)
    });
    assert_eq!(asked.get(), 164);
    alloc_from_pool(100, 8, |ty: u32, n: usize| {
        assert_eq!(ty, LOADER_DATA);
        asked.set(n);
        Ok(0x4000)
    });
    assert_eq!(asked.get(), 100);
}

#[test]
fn failed_pool_gives_null() {
    let p = alloc_from_pool(32, 16, |_ty: u32, _n: usize| Err(Status(OUT_OF_RESOURCES)));
    assert_eq!(p, AllocPlacement { ptr: 0, stash: None });
}

#[test]
fn pages_are_page_aligned() {
    let mut pages = Pages::new(2);
    let addr = pages.as_mut_ptr();
    assert_eq!(addr % PAGE_SIZE, 0);
}

#[test]
fn page_allocator_hands_out_aligned_pages() {
    let mut a = PageAllocator::new();
    let (status, addr) = a.allocate_pages(1);
    assert_eq!(status, Status(SUCCESS));
    assert_eq!(addr % PAGE_SIZE, 0);
    let (status, addr) = a.allocate_pool(0, 1);
    assert_eq!(status, Status(SUCCESS));
    assert_eq!(addr % PAGE_SIZE, 0);
}

#[test]
fn global_allocator_uses_boot_services_while_available() {
    let mut a = Allocator::new();
    a.init(0x8000);
    let p = a.allocate(24, 32, |ty: u32, n: usize| {
        assert_eq!(ty, LOADER_DATA);
        assert_eq!(n, 56);
        Ok(0x3008)
    });
    assert_eq!(p, AllocPlacement { ptr: 0x3020, stash: Some(0x3018) });
    let freed = Cell::new(0usize);
    let r = a.dealloc(p.ptr, 32, 0x3008, |q: usize| {
        freed.set(q);
        Ok(())
    });
    assert_eq!(r, Ok(()));
    assert_eq!(freed.get(), 0x3008);
    a.exit_boot_services();
}

#[test]
fn page_start_rounds_up() {
    assert_eq!(page_start(0), 0);
    assert_eq!(page_start(1), 4096);
    assert_eq!(page_start(8192), 8192);
}

#[test]
fn pool_is_asked_for_loader_data_of_the_padded_size() {
    let asked = Cell::new((0u32, 0usize));
    let p = alloc_from_pool(128, 16, |ty: u32, n: usize| {
        asked.set((ty, n));
        Ok(0x1000)
    });
    assert_eq!(asked.get(), (LOADER_DATA, 144));
    assert_eq!(p, AllocPlacement { ptr: 0x1010, stash: Some(0x1008) });
}

#[test]
fn dealloc_frees_what_the_pool_gave() {
    let p = alloc_from_pool(40, 64, |_ty: u32, _n: usize| Ok(0x5008));
    let stored = p.stash.map(|_| 0x5008).unwrap_or(0);
    assert_eq!(p.stash, Some(0x5038));
    let freed = Cell::new(0usize);
    let r = dealloc(p.ptr, 64, stored, |q: usize| {
        freed.set(q);
        Ok(())
    });
    assert_eq!(r, Ok(()));
    assert_eq!(freed.get(), 0x5008);
}
