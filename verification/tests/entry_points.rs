use alloca::region::StackRegion;
use alloca::slot::OnceSlot;
use alloca::with_alloca;
use alloca::with_alloca_zeroed;

#[test]
fn test_create() {
    let x = alloca::with_alloca(4096, |_| 42);
    assert_eq!(x, 42);
}

#[test]
fn test_write() {
    let x = alloca::with_alloca(4096, |mut memory: StackRegion| {
        memory.write(0, 42);
        memory.write(1, 3);
        memory.write(3072, 4);
        assert_eq!(memory.read(0), 42);
        assert_eq!(memory.read(1), 3);
        assert_eq!(memory.read(3072), 4);
        memory.read(0) + memory.read(1) + memory.read(3072)
    });
    assert_eq!(x, 42 + 3 + 4);
}

#[test]
fn raw_region_has_requested_len() {
    for size in [1usize, 2, 17, 4096, 1 << 20] {
        let n = with_alloca(size, |region: StackRegion| region.len());
        assert_eq!(n, size);
    }
}

#[test]
fn raw_region_is_writable_end_to_end() {
    let size = 4096usize;
    let ok = with_alloca(size, |mut region: StackRegion| {
        region.write(0, 0xAA);
        region.write(size - 1, 0x55);
        region.read(0) == 0xAA && region.read(size - 1) == 0x55
    });
    assert!(ok);
}

#[test]
fn zeroed_region_reads_zero_everywhere() {
    for size in [1usize, 4096, 1_000_000] {
        let all_zero = with_alloca_zeroed(size, |region: StackRegion| {
            let mut ok = true;
            let mut i = 0usize;
            while i < region.len() {
                ok = ok && region.read(i) == 0;
                i += 1;
            }
            ok
        });
        assert!(all_zero);
    }
}

#[test]
fn zeroed_region_has_requested_len() {
    for size in [0usize, 1, 3, 4096] {
        let n = with_alloca_zeroed(size, |region: StackRegion| region.len());
        assert_eq!(n, size);
    }
}

#[test]
fn typed_slot_round_trip() {
    let a = alloca::alloca(|mut slot: OnceSlot<u8>| {
        slot.put(0x5A);
        slot.take()
    });
    assert_eq!(a, 0x5A);
    let b = alloca::alloca(|mut slot: OnceSlot<u16>| {
        slot.put(0xBEEF);
        slot.take()
    });
    assert_eq!(b, 0xBEEF);
    let c = alloca::alloca(|mut slot: OnceSlot<u32>| {
        slot.put(0xDEAD_BEEF);
        slot.take()
    });
    assert_eq!(c, 0xDEAD_BEEF);
    let d = alloca::alloca(|mut slot: OnceSlot<u64>| {
        slot.put(0x0123_4567_89AB_CDEF);
        slot.take()
    });
    assert_eq!(d, 0x0123_4567_89AB_CDEF);
    let e = alloca::alloca(|mut slot: OnceSlot<u128>| {
        slot.put(u128::MAX - 7);
        slot.take()
    });
    assert_eq!(e, u128::MAX - 7);
}

#[test]
fn typed_slot_arrives_empty() {
    let was_empty = alloca::alloca(|slot: OnceSlot<u64>| !slot.is_set());
    assert!(was_empty);
}

#[test]
fn closure_runs_exactly_once_raw() {
    let mut count = 0u32;
    with_alloca(16, |_region| {
        count += 1;
    });
    assert_eq!(count, 1);
}

#[test]
fn closure_runs_exactly_once_zeroed() {
    let mut count = 0u32;
    with_alloca_zeroed(16, |_region| {
        count += 1;
    });
    assert_eq!(count, 1);
}

#[test]
fn closure_runs_exactly_once_typed() {
    let mut count = 0u32;
    alloca::alloca(|_slot: OnceSlot<u8>| {
        count += 1;
    });
    assert_eq!(count, 1);
}

#[test]
fn identity_round_trip_integer() {
    let x = with_alloca(8, |_region| -12345i64);
    assert_eq!(x, -12345i64);
}

#[test]
fn identity_round_trip_composite() {
    let x = with_alloca(8, |_region| (7u8, String::from("scratch"), vec![1u32, 2, 3]));
    assert_eq!(x, (7u8, String::from("scratch"), vec![1u32, 2, 3]));
}

#[test]
fn nested_allocations_are_independent() {
    let (outer_byte, inner_byte) = with_alloca(64, |mut outer: StackRegion| {
        outer.write(0, 11);
        let inner_byte = with_alloca(64, |mut inner: StackRegion| {
            inner.write(0, 22);
            inner.read(0)
        });
        (outer.read(0), inner_byte)
    });
    assert_eq!(outer_byte, 11);
    assert_eq!(inner_byte, 22);
}

#[test]
fn nested_mixed_entry_points() {
    let sum = with_alloca_zeroed(32, |outer: StackRegion| {
        let inner = alloca::alloca(|mut slot: OnceSlot<u32>| {
            slot.put(40);
            slot.take()
        });
        inner + outer.read(0) as u32 + 2
    });
    assert_eq!(sum, 42);
}

#[test]
fn zero_size_runs_closure_once_with_empty_region() {
    let mut count = 0u32;
    let n = with_alloca(0, |region: StackRegion| {
        count += 1;
        region.len()
    });
    assert_eq!(count, 1);
    assert_eq!(n, 0);

    let mut count_zeroed = 0u32;
    let n_zeroed = with_alloca_zeroed(0, |region: StackRegion| {
        count_zeroed += 1;
        region.len()
    });
    assert_eq!(count_zeroed, 1);
    assert_eq!(n_zeroed, 0);

    let mut count_typed = 0u32;
    alloca::alloca(|slot: OnceSlot<u8>| {
        count_typed += 1;
        assert!(!slot.is_set());
    });
    assert_eq!(count_typed, 1);
}
