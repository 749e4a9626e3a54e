use ratatui_switch::heap::{
    heap_from_kernel_reply, initialize_heap, HeapError, HeapRegion, DEFAULT_HEAP_SIZE,
};

#[test]
fn default_heap_size_is_256_mib() {
    assert_eq!(DEFAULT_HEAP_SIZE, 0x10000000);
    assert_eq!(DEFAULT_HEAP_SIZE, 256 * 1024 * 1024);
}

#[test]
fn region_validity() {
    assert!(HeapRegion::new(0x8000_0000, 0x1000).is_valid());
    assert!(!HeapRegion::new(0, 0x1000).is_valid());
    assert!(!HeapRegion::new(0x8000_0000, 0).is_valid());
    assert!(!HeapRegion::new(0, 0).is_valid());
}

#[test]
fn usable_loader_heap_is_kept_without_asking_the_kernel() {
    let loader = HeapRegion::new(0x1234_0000, 0x20_0000);
    let r = initialize_heap(loader, |_size: usize| -> Result<usize, u32> {
        panic!("the kernel must not be asked when the loader heap is usable")
    });
    assert_eq!(r, Ok(loader));
}

#[test]
fn null_loader_heap_asks_kernel_for_default_size() {
    let loader = HeapRegion::new(0, 0x20_0000);
    let mut asked: Option<usize> = None;
    let r = initialize_heap(loader, |size: usize| -> Result<usize, u32> {
        asked = Some(size);
        Ok(0x2_0000_0000)
    });
    assert_eq!(asked, Some(0x10000000));
    assert_eq!(r, Ok(HeapRegion { address: 0x2_0000_0000, size: 0x10000000 }));
}

#[test]
fn empty_loader_heap_asks_kernel_for_default_size() {
    let loader = HeapRegion::new(0x1234_0000, 0);
    let r = initialize_heap(loader, |size: usize| -> Result<usize, u32> {
        assert_eq!(size, DEFAULT_HEAP_SIZE);
        Ok(0x4000_0000)
    });
    assert_eq!(r, Ok(HeapRegion::new(0x4000_0000, DEFAULT_HEAP_SIZE)));
}

#[test]
fn kernel_refusal_keeps_result_code() {
    let loader = HeapRegion::new(0, 0);
    let r = initialize_heap(loader, |_size: usize| -> Result<usize, u32> { Err(0xCA01) });
    assert_eq!(r, Err(HeapError::SetHeapSizeFailed(0xCA01)));
}

#[test]
fn kernel_reply_conversion() {
    assert_eq!(
        heap_from_kernel_reply(0x1000, Ok(0x9000)),
        Ok(HeapRegion { address: 0x9000, size: 0x1000 })
    );
    assert_eq!(
        heap_from_kernel_reply(0x1000, Err(7)),
        Err(HeapError::SetHeapSizeFailed(7))
    );
    // A null address from the kernel gives a region, but not a usable one.
    let r = heap_from_kernel_reply(DEFAULT_HEAP_SIZE, Ok(0)).unwrap();
    assert!(!r.is_valid());
}

#[test]
fn set_up_heap_is_kept_on_second_set_up() {
    let first = initialize_heap(HeapRegion::new(0, 0), |_s: usize| -> Result<usize, u32> {
        Ok(0x5000_0000)
    })
    .unwrap();
    assert!(first.is_valid());
    let second = initialize_heap(first, |_s: usize| -> Result<usize, u32> { Err(1) });
    assert_eq!(second, Ok(first));
}
