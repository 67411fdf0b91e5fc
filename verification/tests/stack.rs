use hdk::allocation::Allocation;
use hdk::error::RibosomeErrorCode;
use hdk::stack::Stack;

#[test]
fn a_new_stack_is_empty() {
    let stack = Stack::new(100);
    assert_eq!(stack.top(), 0);
    assert_eq!(stack.capacity(), 100);
    assert_eq!(stack.available(), 100);
}

#[test]
fn from_encoded_starts_above_the_input() {
    let word = Allocation::new(10, 22).encode().unwrap();
    let stack = Stack::from_encoded(word, 100).unwrap();
    assert_eq!(stack.top(), 32);
    assert_eq!(stack.capacity(), 100);
}

#[test]
fn from_encoded_of_zero_starts_at_the_bottom() {
    let stack = Stack::from_encoded(0, 64).unwrap();
    assert_eq!(stack.top(), 0);
}

#[test]
fn from_encoded_accepts_input_that_ends_at_the_capacity() {
    let word = Allocation::new(60, 4).encode().unwrap();
    assert_eq!(Stack::from_encoded(word, 64).unwrap().top(), 64);
}

#[test]
fn from_encoded_refuses_input_beyond_the_capacity() {
    let word = Allocation::new(60, 5).encode().unwrap();
    assert_eq!(Stack::from_encoded(word, 64).err(), Some(RibosomeErrorCode::OutOfMemory));
    assert_eq!(Stack::from_encoded(u32::MAX, 65_535).err(), Some(RibosomeErrorCode::OutOfMemory));
}

#[test]
fn allocate_takes_bytes_from_the_top() {
    let mut stack = Stack::new(100);
    assert_eq!(stack.allocate(30), Ok(Allocation::new(0, 30)));
    assert_eq!(stack.top(), 30);
    assert_eq!(stack.allocate(12), Ok(Allocation::new(30, 12)));
    assert_eq!(stack.top(), 42);
    assert_eq!(stack.available(), 58);
}

#[test]
fn allocate_of_nothing_moves_nothing() {
    let mut stack = Stack::new(8);
    assert_eq!(stack.allocate(0), Ok(Allocation::new(0, 0)));
    assert_eq!(stack.top(), 0);
}

#[test]
fn allocate_fills_the_stack_to_the_last_byte() {
    let mut stack = Stack::new(8);
    assert_eq!(stack.allocate(8), Ok(Allocation::new(0, 8)));
    assert_eq!(stack.available(), 0);
    assert_eq!(stack.allocate(0), Ok(Allocation::new(8, 0)));
}

#[test]
fn allocate_beyond_the_capacity_is_out_of_memory() {
    let mut stack = Stack::new(8);
    stack.allocate(5).unwrap();
    assert_eq!(stack.allocate(4), Err(RibosomeErrorCode::OutOfMemory));
    assert_eq!(stack.top(), 5);
    assert_eq!(stack.allocate(u32::MAX), Err(RibosomeErrorCode::OutOfMemory));
    assert_eq!(stack.top(), 5);
    assert_eq!(stack.allocate(3), Ok(Allocation::new(5, 3)));
}

#[test]
fn deallocate_undoes_allocate() {
    let mut stack = Stack::new(100);
    stack.allocate(17).unwrap();
    let before = stack.top();
    let allocation = stack.allocate(40).unwrap();
    assert_eq!(stack.deallocate(allocation), Ok(()));
    assert_eq!(stack.top(), before);
}

#[test]
fn deallocate_goes_in_reverse_order() {
    let mut stack = Stack::new(100);
    let first = stack.allocate(10).unwrap();
    let second = stack.allocate(20).unwrap();
    let third = stack.allocate(30).unwrap();
    assert_eq!(stack.deallocate(third), Ok(()));
    assert_eq!(stack.deallocate(second), Ok(()));
    assert_eq!(stack.deallocate(first), Ok(()));
    assert_eq!(stack.top(), 0);
}

#[test]
fn deallocate_out_of_order_is_stack_corruption() {
    let mut stack = Stack::new(100);
    let first = stack.allocate(10).unwrap();
    let _second = stack.allocate(20).unwrap();
    assert_eq!(stack.deallocate(first), Err(RibosomeErrorCode::StackCorruption));
    assert_eq!(stack.top(), 30);
}

#[test]
fn deallocate_of_a_stranger_is_stack_corruption() {
    let mut stack = Stack::new(100);
    stack.allocate(10).unwrap();
    assert_eq!(stack.deallocate(Allocation::new(4, 5)), Err(RibosomeErrorCode::StackCorruption));
    assert_eq!(stack.deallocate(Allocation::new(11, 0)), Err(RibosomeErrorCode::StackCorruption));
    assert_eq!(
        stack.deallocate(Allocation::new(u32::MAX, 11)),
        Err(RibosomeErrorCode::StackCorruption)
    );
    assert_eq!(stack.top(), 10);
}

#[test]
fn deallocate_twice_is_stack_corruption() {
    let mut stack = Stack::new(100);
    stack.allocate(3).unwrap();
    let allocation = stack.allocate(10).unwrap();
    assert_eq!(stack.deallocate(allocation), Ok(()));
    assert_eq!(stack.deallocate(allocation), Err(RibosomeErrorCode::StackCorruption));
    assert_eq!(stack.top(), 3);
}
