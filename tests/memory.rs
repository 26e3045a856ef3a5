use contract_sandbox::error::{Error, HostError};
use contract_sandbox::memory::{Memory, SandboxMemory};

#[test]
fn new_memory_is_zeroed() {
    let mem = Memory::new(1, Some(2)).unwrap();
    let mut buf = vec![1u8; 16];
    mem.get(65520, &mut buf).unwrap();
    assert_eq!(buf, vec![0u8; 16]);
    let mut past = [5u8; 1];
    assert_eq!(mem.get(65536, &mut past), Err(Error::OutOfBounds));
    assert_eq!(past, [5u8]);
}

#[test]
fn new_memory_rejects_bad_limits() {
    assert!(matches!(Memory::new(65537, None), Err(Error::Module)));
    assert!(matches!(Memory::new(2, Some(1)), Err(Error::Module)));
    assert!(matches!(Memory::new(1, Some(65537)), Err(Error::Module)));
    assert!(Memory::new(0, Some(0)).is_ok());
}

#[test]
fn empty_memory_has_no_bytes() {
    let mem = Memory::new(0, None).unwrap();
    let mut none: [u8; 0] = [];
    assert_eq!(mem.get(0, &mut none), Ok(()));
    let mut one = [0u8; 1];
    assert_eq!(mem.get(0, &mut one), Err(Error::OutOfBounds));
}

#[test]
fn set_then_get() {
    let mut mem = Memory::new(1, None).unwrap();
    mem.set(10, &[1, 2, 3]).unwrap();
    let mut buf = [0u8; 5];
    mem.get(9, &mut buf).unwrap();
    assert_eq!(buf, [0, 1, 2, 3, 0]);
    assert_eq!(mem.set(65535, &[1, 2]), Err(Error::OutOfBounds));
    let mut last = [9u8; 1];
    mem.get(65535, &mut last).unwrap();
    assert_eq!(last, [0]);
}

#[test]
fn independent_memories_do_not_share_bytes() {
    let mut a = Memory::new(1, None).unwrap();
    let b = Memory::new(1, None).unwrap();
    a.set(0, &[42]).unwrap();
    let mut buf = [0u8; 1];
    b.get(0, &mut buf).unwrap();
    assert_eq!(buf, [0]);
    a.get(0, &mut buf).unwrap();
    assert_eq!(buf, [42]);
}

#[test]
fn sandbox_error_becomes_host_error() {
    assert_eq!(HostError::from(Error::Execution), HostError);
}
