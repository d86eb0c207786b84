use wasm_runner::error::HostError;
use wasm_runner::memory::{check_range, ByteRange, LinearMemory, MemoryWrite};

#[test]
fn new_memory_is_zeroed() {
    let memory = LinearMemory::new(64);
    assert_eq!(memory.size(), 64);
    assert_eq!(memory.as_slice(), &[0u8; 64]);
    assert_eq!(LinearMemory::new(0).size(), 0);
}

#[test]
fn memory_from_bytes() {
    let memory = LinearMemory::from_bytes(vec![1, 2, 3]);
    assert_eq!(memory.size(), 3);
    assert_eq!(memory.as_slice(), &[1, 2, 3]);
}

#[test]
fn range_inside_memory() {
    assert_eq!(check_range(0, 0, 0), Ok(ByteRange { offset: 0, len: 0 }));
    assert_eq!(check_range(0, 16, 16), Ok(ByteRange { offset: 0, len: 16 }));
    assert_eq!(check_range(10, 6, 16), Ok(ByteRange { offset: 10, len: 6 }));
    assert_eq!(check_range(16, 0, 16), Ok(ByteRange { offset: 16, len: 0 }));
    assert_eq!(check_range(15, 1, 16), Ok(ByteRange { offset: 15, len: 1 }));
}

#[test]
fn range_past_the_end() {
    assert_eq!(
        check_range(10, 7, 16),
        Err(HostError::MemoryRange { offset: 10, len: 7, size: 16 })
    );
    assert_eq!(
        check_range(17, 0, 16),
        Err(HostError::MemoryRange { offset: 17, len: 0, size: 16 })
    );
    assert_eq!(check_range(0, 1, 0), Err(HostError::MemoryRange { offset: 0, len: 1, size: 0 }));
    assert_eq!(
        check_range(u32::MAX, u32::MAX, 1 << 20),
        Err(HostError::MemoryRange {
            offset: u32::MAX as usize,
            len: u32::MAX as usize,
            size: 1 << 20
        })
    );
    assert_eq!(
        check_range(u32::MAX, 1, u32::MAX as usize),
        Err(HostError::MemoryRange {
            offset: u32::MAX as usize,
            len: 1,
            size: u32::MAX as usize
        })
    );
}

#[test]
fn load_copies_a_range() {
    let memory = LinearMemory::from_bytes((0u8..32).collect());
    assert_eq!(memory.load(&ByteRange { offset: 4, len: 3 }), Ok(vec![4, 5, 6]));
    assert_eq!(memory.load(&ByteRange { offset: 0, len: 32 }), Ok((0u8..32).collect()));
    assert_eq!(memory.load(&ByteRange { offset: 32, len: 0 }), Ok(vec![]));
    assert_eq!(
        memory.load(&ByteRange { offset: 30, len: 3 }),
        Err(HostError::MemoryRange { offset: 30, len: 3, size: 32 })
    );
    assert_eq!(
        memory.load(&ByteRange { offset: 33, len: 0 }),
        Err(HostError::MemoryRange { offset: 33, len: 0, size: 32 })
    );
    assert_eq!(
        memory.load(&ByteRange { offset: usize::MAX, len: usize::MAX }),
        Err(HostError::MemoryRange { offset: usize::MAX, len: usize::MAX, size: 32 })
    );
}

#[test]
fn store_changes_only_its_range() {
    let mut memory = LinearMemory::from_bytes(vec![9; 8]);
    assert_eq!(memory.store(&MemoryWrite { offset: 2, bytes: vec![1, 2, 3] }), Ok(()));
    assert_eq!(memory.as_slice(), &[9, 9, 1, 2, 3, 9, 9, 9]);
    assert_eq!(memory.store(&MemoryWrite { offset: 7, bytes: vec![7] }), Ok(()));
    assert_eq!(memory.as_slice(), &[9, 9, 1, 2, 3, 9, 9, 7]);
    assert_eq!(memory.store(&MemoryWrite { offset: 8, bytes: vec![] }), Ok(()));
    assert_eq!(memory.as_slice(), &[9, 9, 1, 2, 3, 9, 9, 7]);
    assert_eq!(memory.size(), 8);
}

#[test]
fn refused_store_writes_nothing() {
    let mut memory = LinearMemory::from_bytes(vec![9; 8]);
    assert_eq!(
        memory.store(&MemoryWrite { offset: 6, bytes: vec![1, 2, 3] }),
        Err(HostError::MemoryRange { offset: 6, len: 3, size: 8 })
    );
    assert_eq!(memory.as_slice(), &[9; 8]);
    assert_eq!(
        memory.store(&MemoryWrite { offset: 9, bytes: vec![] }),
        Err(HostError::MemoryRange { offset: 9, len: 0, size: 8 })
    );
    assert_eq!(
        memory.store(&MemoryWrite { offset: usize::MAX, bytes: vec![1, 2] }),
        Err(HostError::MemoryRange { offset: usize::MAX, len: 2, size: 8 })
    );
    assert_eq!(memory.as_slice(), &[9; 8]);
}

#[test]
fn stored_bytes_are_loaded_back() {
    let mut memory = LinearMemory::new(1 << 16);
    let bytes: Vec<u8> = (0..=255u8).collect();
    memory.store(&MemoryWrite { offset: 0xff00, bytes: bytes.clone() }).unwrap();
    assert_eq!(memory.load(&ByteRange { offset: 0xff00, len: 256 }), Ok(bytes));
    assert_eq!(memory.load(&ByteRange { offset: 0xfeff, len: 2 }), Ok(vec![0, 0]));
}

#[test]
fn host_errors_have_messages() {
    assert_eq!(HostError::Configuration.message(), "invalid configuration");
    assert_eq!(
        HostError::MemoryRange { offset: 1, len: 2, size: 3 }.message(),
        "guest memory access out of bounds"
    );
    assert_eq!(
        HostError::Instantiation.message(),
        "no instantiation template has been published"
    );
    assert_eq!(
        HostError::Encoding(wasm_runner::error::EncodingError::InvalidPropertyName).message(),
        "invalid property name"
    );
}
