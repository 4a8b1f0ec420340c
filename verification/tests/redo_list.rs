use krusty_grab::redo_list::RedoList;

fn drain(list: &mut RedoList<u32>) -> Vec<u32> {
    let mut out = Vec::new();
    while let Some(d) = list.pop() {
        out.push(d);
    }
    out
}

#[test]
fn new_list_is_empty_with_its_capacity() {
    let list: RedoList<u32> = RedoList::new(10);
    assert!(list.is_empty());
    assert_eq!(list.capacity(), 10);
}

#[test]
fn pop_returns_most_recent_first() {
    let mut list = RedoList::new(3);
    list.push(1);
    list.push(2);
    list.push(3);
    assert!(!list.is_empty());
    assert_eq!(drain(&mut list), vec![3, 2, 1]);
    assert!(list.is_empty());
    assert_eq!(list.pop(), None);
}

#[test]
fn full_list_drops_oldest() {
    let mut list = RedoList::new(2);
    list.push(1);
    list.push(2);
    list.push(3);
    list.push(4);
    assert_eq!(drain(&mut list), vec![4, 3]);
    assert_eq!(list.capacity(), 2);
}

#[test]
fn keeps_the_newest_ten() {
    let mut list = RedoList::new(10);
    for i in 0..25u32 {
        list.push(i);
    }
    assert_eq!(drain(&mut list), (15..25u32).rev().collect::<Vec<u32>>());
}

#[test]
fn zero_capacity_keeps_only_the_last_push() {
    let mut list = RedoList::new(0);
    list.push(5);
    list.push(6);
    assert_eq!(drain(&mut list), vec![6]);
}

#[test]
fn pop_after_push_gives_back_the_pushed_item() {
    let mut list = RedoList::new(4);
    list.push(10);
    list.push(11);
    list.push(12);
    assert_eq!(list.pop(), Some(12));
    assert_eq!(drain(&mut list), vec![11, 10]);
}

#[test]
fn clone_is_independent_copy() {
    let mut list = RedoList::new(3);
    list.push(1);
    list.push(2);
    let mut copy = list.clone();
    assert_eq!(copy.capacity(), 3);
    assert_eq!(drain(&mut copy), vec![2, 1]);
    assert_eq!(drain(&mut list), vec![2, 1]);
}
