use stackvm::errors::Fault;
use stackvm::memory::Memory;

#[test]
fn memory_create() {
    Memory::new(10, 5).unwrap();
}

#[test]
#[should_panic]
fn create_invalid() {
    Memory::new(5, 10).unwrap();
}

#[test]
fn push() {
    let mut mem = Memory::new(10, 5).unwrap();
    mem.push(1).unwrap();
    mem.push(2).unwrap();
    mem.push(3).unwrap();
    mem.push(4).unwrap();
    mem.push(5).unwrap();
}

#[test]
#[should_panic]
fn stackoverflow() {
    let mut mem = Memory::new(10, 5).unwrap();
    mem.push(1).unwrap();
    mem.push(2).unwrap();
    mem.push(3).unwrap();
    mem.push(4).unwrap();
    mem.push(5).unwrap();
    mem.push(6).unwrap();
}

#[test]
fn pop() {
    let mut mem = Memory::new(10, 5).unwrap();
    mem.push(1).unwrap();
    mem.push(2).unwrap();
    mem.push(3).unwrap();
    mem.push(4).unwrap();
    mem.push(5).unwrap();
    assert_eq!(mem.pop().unwrap(), 5);
    assert_eq!(mem.pop().unwrap(), 4);
    assert_eq!(mem.pop().unwrap(), 3);
    assert_eq!(mem.pop().unwrap(), 2);
    assert_eq!(mem.pop().unwrap(), 1);
}

#[test]
#[should_panic]
fn pop_empry() {
    let mut mem = Memory::new(10, 5).unwrap();
    mem.pop().unwrap();
}

#[test]
fn write() {
    let data = [1, 2, 3, 4, 5];
    let mut mem = Memory::new(10, 5).unwrap();
    mem.write(0, &data).unwrap();
}

#[test]
#[should_panic]
fn write_overlap() {
    let data = [1, 2, 3, 4, 5, 6];
    let mut mem = Memory::new(10, 5).unwrap();
    mem.write(0, &data).unwrap();
}

#[test]
fn read() {
    let data = [1, 2, 3, 4, 5];
    let mut mem = Memory::new(10, 5).unwrap();
    mem.write(0, &data).unwrap();
    assert_eq!(mem.read(0).unwrap(), 1);
    assert_eq!(mem.read(4).unwrap(), 5);
}

#[test]
#[should_panic]
fn read_invalid() {
    let mem = Memory::new(10, 5).unwrap();
    mem.read(20).unwrap();
}

#[test]
fn new_rejects_stack_as_large_as_memory() {
    let err = Memory::new(8, 8).unwrap_err();
    assert_eq!(err.kind(), Fault::InvalidSize);
    assert_eq!(
        err.message(),
        "Invalid size: Stack size cannot be more than total memory cells"
    );
    assert!(Memory::new(0, 0).is_err());
    assert!(Memory::new(1, 0).is_ok());
}

#[test]
fn new_memory_is_zeroed() {
    let mem = Memory::new(6, 2).unwrap();
    assert_eq!(mem.cells(), 6);
    assert_eq!(mem.stack_size(), 2);
    assert_eq!(mem.stack_pointer(), 0);
    for a in 0..6 {
        assert_eq!(mem.read(a).unwrap(), 0);
    }
}

#[test]
fn push_writes_downward_from_the_top() {
    let mut mem = Memory::new(10, 3).unwrap();
    mem.push(7).unwrap();
    mem.push(8).unwrap();
    assert_eq!(mem.read(9).unwrap(), 7);
    assert_eq!(mem.read(8).unwrap(), 8);
    assert_eq!(mem.read(7).unwrap(), 0);
    assert_eq!(mem.stack_pointer(), 2);
}

#[test]
fn push_on_full_stack_changes_nothing() {
    let mut mem = Memory::new(4, 2).unwrap();
    mem.push(1).unwrap();
    mem.push(2).unwrap();
    let err = mem.push(3).unwrap_err();
    assert_eq!(err.kind(), Fault::StackOverflow);
    assert_eq!(mem.stack_pointer(), 2);
    assert_eq!(mem.read(3).unwrap(), 1);
    assert_eq!(mem.read(2).unwrap(), 2);
    assert_eq!(mem.read(1).unwrap(), 0);
    assert_eq!(mem.read(0).unwrap(), 0);
}

#[test]
fn pop_on_empty_stack_reports_empty_container() {
    let mut mem = Memory::new(4, 2).unwrap();
    let err = mem.pop().unwrap_err();
    assert_eq!(err.kind(), Fault::EmptyContainer);
    assert_eq!(err.message(), "Empty container: Cannot pop from empty stack");
    assert_eq!(mem.stack_pointer(), 0);
}

#[test]
fn lifo_order_over_a_full_stack() {
    let mut mem = Memory::new(64, 32).unwrap();
    for v in 0..32u32 {
        mem.push(v * 3 + 1).unwrap();
    }
    for v in (0..32u32).rev() {
        assert_eq!(mem.pop().unwrap(), v * 3 + 1);
    }
    assert_eq!(mem.stack_pointer(), 0);
}

#[test]
fn write_into_stack_region_is_refused_and_changes_nothing() {
    let mut mem = Memory::new(10, 5).unwrap();
    mem.write(0, &[9, 9, 9, 9, 9]).unwrap();
    let err = mem.write(3, &[1, 2, 3]).unwrap_err();
    assert_eq!(err.kind(), Fault::InvalidAddress);
    for a in 0..5 {
        assert_eq!(mem.read(a).unwrap(), 9);
    }
    for a in 5..10 {
        assert_eq!(mem.read(a).unwrap(), 0);
    }
    assert_eq!(mem.write(5, &[1]).unwrap_err().kind(), Fault::InvalidAddress);
    assert_eq!(
        mem.write(0xffff_ffff, &[1]).unwrap_err().kind(),
        Fault::InvalidAddress
    );
}

#[test]
fn write_up_to_the_last_data_cell() {
    let mut mem = Memory::new(10, 5).unwrap();
    mem.write(2, &[4, 5, 6]).unwrap();
    assert_eq!(mem.read(1).unwrap(), 0);
    assert_eq!(mem.read(2).unwrap(), 4);
    assert_eq!(mem.read(3).unwrap(), 5);
    assert_eq!(mem.read(4).unwrap(), 6);
    mem.write(5, &[]).unwrap();
    assert!(mem.write(6, &[]).is_err());
}

#[test]
fn read_reaches_stack_cells_and_stops_at_the_end() {
    let mut mem = Memory::new(10, 5).unwrap();
    mem.push(42).unwrap();
    assert_eq!(mem.read(9).unwrap(), 42);
    assert_eq!(mem.read(10).unwrap_err().kind(), Fault::InvalidAddress);
}
