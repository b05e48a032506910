use std::cell::RefCell;

use kernel_runtime::allocator::{
    is_power_of_two, AllocationHandle, AllocationRequest, BitmapAllocator,
};

/// A raw allocator over a fixed run of bytes: it hands out addresses from
/// `base` upwards, answers null when it has no room, and remembers every
/// call that reaches it.
struct Arena {
    base: usize,
    bytes: Vec<u8>,
    next: usize,
    live: Vec<(usize, usize)>,
    asked: Vec<usize>,
    released: Vec<usize>,
}

impl Arena {
    fn new(base: usize, len: usize) -> RefCell<Arena> {
        RefCell::new(Arena {
            base,
            bytes: vec![0; len],
            next: 0,
            live: Vec::new(),
            asked: Vec::new(),
            released: Vec::new(),
        })
    }

    fn raw_allocate(&mut self, size: usize) -> usize {
        self.asked.push(size);
        if size > self.bytes.len() - self.next {
            return 0;
        }
        let address = self.base + self.next;
        self.next += size;
        self.live.push((address, size));
        address
    }

    fn raw_release(&mut self, address: usize) {
        self.released.push(address);
        let at = self
            .live
            .iter()
            .position(|block| block.0 == address)
            .unwrap_or_else(|| panic!("release of {address:#x}, which is not live"));
        self.live.remove(at);
    }

    fn write(&mut self, address: usize, data: &[u8]) {
        let start = address - self.base;
        self.bytes[start..start + data.len()].copy_from_slice(data);
    }

    fn read(&self, address: usize, len: usize) -> Vec<u8> {
        let start = address - self.base;
        self.bytes[start..start + len].to_vec()
    }
}

fn request(size: usize, alignment: usize) -> AllocationRequest {
    AllocationRequest::new(size, alignment).unwrap()
}

#[test]
fn handle_is_null_or_holds_the_bytes_asked_for() {
    let arena = Arena::new(0x10_0000, 600);
    let allocator = BitmapAllocator::new(
        |size| arena.borrow_mut().raw_allocate(size),
        |address| arena.borrow_mut().raw_release(address),
    );
    let mut successes = 0;
    let mut failures = 0;
    let mut written: Vec<(usize, Vec<u8>)> = Vec::new();
    for round in 0..8usize {
        for exponent in 0..6u32 {
            let size = 1 + round * 5 + exponent as usize;
            let alignment = 1usize << exponent;
            let handle = allocator.allocate(&request(size, alignment));
            assert_eq!(arena.borrow().asked.last(), Some(&size));
            if handle.is_null() {
                failures += 1;
                continue;
            }
            successes += 1;
            let data: Vec<u8> = (0..size).map(|i| (i * 7 + round * 3 + 1) as u8).collect();
            arena.borrow_mut().write(handle.address, &data);
            written.push((handle.address, data));
        }
    }
    assert!(successes > 0);
    assert!(failures > 0);
    for (address, data) in written.iter() {
        assert_eq!(&arena.borrow().read(*address, data.len()), data);
    }
}

#[test]
fn allocate_returns_what_the_raw_allocator_answers() {
    let allocator = BitmapAllocator::new(|size| 0xC000_0000 + size, |_address| {});
    assert_eq!(allocator.allocate(&request(1, 1)), AllocationHandle { address: 0xC000_0001 });
    assert_eq!(allocator.allocate(&request(4096, 4096)).address, 0xC000_1000);
    assert!(!allocator.allocate(&request(4096, 4096)).is_null());
}

#[test]
fn exhausted_allocator_gives_a_null_handle() {
    let arena = Arena::new(0x8000, 16);
    let allocator = BitmapAllocator::new(
        |size| arena.borrow_mut().raw_allocate(size),
        |address| arena.borrow_mut().raw_release(address),
    );
    let first = allocator.allocate(&request(16, 8));
    assert_eq!(first.address, 0x8000);
    assert!(!first.is_null());
    let second = allocator.allocate(&request(1, 1));
    assert!(second.is_null());
    assert_eq!(second, AllocationHandle { address: 0 });
    let never = BitmapAllocator::new(|_size| 0, |_address| {});
    assert!(never.allocate(&request(64, 16)).is_null());
}

#[test]
fn deallocate_after_allocate_is_a_clean_round_trip() {
    let arena = Arena::new(0x20_0000, 64);
    let allocator = BitmapAllocator::new(
        |size| arena.borrow_mut().raw_allocate(size),
        |address| arena.borrow_mut().raw_release(address),
    );
    let layout = request(4, 4);
    let handle = allocator.allocate(&layout);
    assert!(!handle.is_null());
    arena.borrow_mut().write(handle.address, &33u32.to_ne_bytes());
    assert_eq!(arena.borrow().read(handle.address, 4), 33u32.to_ne_bytes().to_vec());
    assert_eq!(arena.borrow().live, vec![(handle.address, 4)]);
    let address = handle.address;
    allocator.deallocate(handle, &layout);
    assert_eq!(arena.borrow().released, vec![address]);
    assert!(arena.borrow().live.is_empty());
}

#[test]
fn deallocate_forwards_the_address_alone() {
    let released: RefCell<Vec<usize>> = RefCell::new(Vec::new());
    let allocator = BitmapAllocator::new(|_size| 0x5000, |address| released.borrow_mut().push(address));
    allocator.deallocate(AllocationHandle { address: 0x5000 }, &request(128, 64));
    allocator.deallocate(AllocationHandle { address: 0x7FF8 }, &request(0, 1));
    allocator.deallocate(AllocationHandle { address: 0 }, &request(8, 8));
    assert_eq!(*released.borrow(), vec![0x5000, 0x7FF8, 0]);
}

#[test]
fn zero_size_request_is_forwarded_as_it_is() {
    let asked: RefCell<Vec<usize>> = RefCell::new(Vec::new());
    let refusing = BitmapAllocator::new(
        |size| {
            asked.borrow_mut().push(size);
            if size == 0 {
                0
            } else {
                0x9000
            }
        },
        |_address| {},
    );
    for exponent in 0..12u32 {
        let handle = refusing.allocate(&request(0, 1 << exponent));
        assert!(handle.is_null());
    }
    assert_eq!(*asked.borrow(), vec![0; 12]);

    let arena = Arena::new(0x3000, 8);
    let granting = BitmapAllocator::new(
        |size| arena.borrow_mut().raw_allocate(size),
        |address| arena.borrow_mut().raw_release(address),
    );
    let layout = request(0, 16);
    let handle = granting.allocate(&layout);
    assert_eq!(handle.address, 0x3000);
    assert!(!handle.is_null());
    assert_eq!(arena.borrow().asked, vec![0]);
    granting.deallocate(handle, &layout);
    assert_eq!(arena.borrow().released, vec![0x3000]);
}

#[test]
fn alignment_is_accepted_but_not_passed_on() {
    let asked: RefCell<Vec<usize>> = RefCell::new(Vec::new());
    let allocator = BitmapAllocator::new(
        |size| {
            asked.borrow_mut().push(size);
            0x1001
        },
        |_address| {},
    );
    for exponent in [0u32, 1, 4, 12, 20] {
        let handle = allocator.allocate(&request(24, 1 << exponent));
        assert_eq!(handle.address, 0x1001);
    }
    assert_eq!(*asked.borrow(), vec![24; 5]);
}

#[test]
fn request_keeps_size_and_alignment() {
    let layout = request(48, 16);
    assert_eq!(layout.size(), 48);
    assert_eq!(layout.alignment(), 16);
    let empty = request(0, 1);
    assert_eq!(empty.size(), 0);
    assert_eq!(empty.alignment(), 1);
    let large = request(usize::MAX, 1 << (usize::BITS - 1));
    assert_eq!(large.size(), usize::MAX);
    assert_eq!(large.alignment(), 1 << (usize::BITS - 1));
}

#[test]
fn request_needs_a_power_of_two_alignment() {
    assert!(AllocationRequest::new(8, 0).is_none());
    assert!(AllocationRequest::new(8, 3).is_none());
    assert!(AllocationRequest::new(8, 6).is_none());
    assert!(AllocationRequest::new(8, 12).is_none());
    assert!(AllocationRequest::new(8, 4095).is_none());
    assert!(AllocationRequest::new(8, usize::MAX).is_none());
    assert!(AllocationRequest::new(0, 24).is_none());
    for exponent in 0..usize::BITS {
        assert!(AllocationRequest::new(8, 1 << exponent).is_some());
    }
}

#[test]
fn powers_of_two_are_told_apart() {
    assert!(!is_power_of_two(0));
    assert!(is_power_of_two(1));
    assert!(is_power_of_two(2));
    assert!(!is_power_of_two(3));
    assert!(is_power_of_two(4));
    assert!(!is_power_of_two(6));
    assert!(!is_power_of_two(4097));
    assert!(is_power_of_two(1 << (usize::BITS - 1)));
    assert!(!is_power_of_two(usize::MAX));
    for n in 0..5000usize {
        assert_eq!(is_power_of_two(n), n.is_power_of_two());
    }
}
