use pi_firmware::stack_vec::StackVec;

#[test]
fn new_is_empty_with_storage_capacity() {
    let sv: StackVec<u32> = StackVec::new(vec![0; 8]);
    assert_eq!(sv.capacity(), 8);
    assert_eq!(sv.len(), 0);
    assert!(sv.is_empty());
    assert!(!sv.is_full());
}

#[test]
fn with_len_keeps_prefilled_prefix() {
    let sv = StackVec::with_len(vec![1, 2, 3, 4], 2);
    assert_eq!(sv.capacity(), 4);
    assert_eq!(sv.len(), 2);
    assert_eq!(sv.as_slice(), &[1, 2]);
}

#[test]
fn push_until_full_then_fails() {
    let mut sv = StackVec::new(vec![0u8; 2]);
    assert_eq!(sv.push(10), Ok(()));
    assert_eq!(sv.push(20), Ok(()));
    assert!(sv.is_full());
    assert_eq!(sv.push(30), Err(()));
    assert_eq!(sv.as_slice(), &[10, 20]);
}

#[test]
fn pop_returns_last_and_empties() {
    let mut sv = StackVec::with_len(vec![1, 2, 3], 3);
    assert_eq!(sv.pop(), Some(3));
    assert_eq!(sv.pop(), Some(2));
    assert_eq!(sv.pop(), Some(1));
    assert_eq!(sv.pop(), None);
    assert!(sv.is_empty());
}

#[test]
fn truncate_keeps_prefix_and_ignores_larger_len() {
    let mut sv = StackVec::with_len(vec![5, 6, 7, 8], 4);
    sv.truncate(6);
    assert_eq!(sv.len(), 4);
    sv.truncate(2);
    assert_eq!(sv.as_slice(), &[5, 6]);
    assert_eq!(sv.capacity(), 4);
}

#[test]
fn slices_and_get_see_live_elements() {
    let mut sv = StackVec::with_len(vec![9, 8, 7], 3);
    assert_eq!(*sv.get(1), 8);
    let s = sv.as_mut_slice();
    s[0] = 1;
    assert_eq!(sv.as_slice(), &[1, 8, 7]);
    let v = sv.into_slice();
    assert_eq!(v, vec![1, 8, 7]);
}

#[test]
fn into_iter_yields_in_order() {
    let sv = StackVec::with_len(vec![4, 5, 6], 3);
    let mut it = sv.into_iter();
    assert_eq!(it.next(), Some(4));
    assert_eq!(it.next(), Some(5));
    assert_eq!(it.next(), Some(6));
    assert_eq!(it.next(), None);
}
