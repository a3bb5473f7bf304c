use esp_hal::config::{WatchdogConfig, WatchdogStatus};
use esp_hal::heap::{heap_owns, Capabilities, EspHeap, HeapRegion, MAX_REGIONS};
use linked_list_allocator::Heap;

fn region(internal: bool, external: bool) -> HeapRegion {
    HeapRegion::new(Heap::empty(), Capabilities { internal, external })
}

#[test]
fn regions_fill_the_first_free_slot() {
    let mut heap = EspHeap::empty();
    assert_eq!(heap.heap.len(), MAX_REGIONS);
    assert!(heap.heap.iter().all(|r| r.is_none()));
    heap.add_region(region(true, false));
    heap.add_region(region(false, true));
    assert_eq!(heap.heap[0].as_ref().unwrap().capabilities, Capabilities { internal: true, external: false });
    assert_eq!(heap.heap[1].as_ref().unwrap().capabilities, Capabilities { internal: false, external: true });
    assert!(heap.heap[2].is_none());
}

#[test]
fn a_freed_slot_is_taken_again_first() {
    let mut heap = EspHeap::empty();
    heap.add_region(region(true, false));
    heap.add_region(region(true, false));
    heap.add_region(region(true, false));
    heap.heap[1] = None;
    heap.add_region(region(false, true));
    assert_eq!(heap.heap[1].as_ref().unwrap().capabilities, Capabilities { internal: false, external: true });
    assert!(heap.heap.iter().all(|r| r.is_some()));
}

#[test]
fn watchdogs_are_disabled_by_default() {
    assert!(WatchdogStatus::default() == WatchdogStatus::Disabled);
    let config = WatchdogConfig::default();
    let _copy = config;
    assert!(WatchdogStatus::Enabled(esp_hal::time::Duration::from_micros(5)) != WatchdogStatus::Disabled);
}

#[test]
fn a_heap_owns_the_addresses_between_its_ends() {
    assert!(heap_owns(0x1000, 0x1fff, 0x1000));
    assert!(heap_owns(0x1000, 0x1fff, 0x1fff));
    assert!(heap_owns(0x1000, 0x1fff, 0x1800));
    assert!(!heap_owns(0x1000, 0x1fff, 0x0fff));
    assert!(!heap_owns(0x1000, 0x1fff, 0x2000));
}
