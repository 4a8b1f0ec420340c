use krusty_grab::history::{can_redo, can_undo, record, record_replacing, redo, undo, REDO_LIST_SIZE};
use krusty_grab::redo_list::RedoList;

#[test]
fn redo_list_size_is_ten() {
    assert_eq!(REDO_LIST_SIZE, 10);
}

#[test]
fn undo_buttons_follow_the_lists() {
    let none: Option<Vec<u32>> = None;
    assert!(!can_undo(&none));
    assert!(!can_undo(&Some(Vec::<u32>::new())));
    assert!(can_undo(&Some(vec![1u32])));
    let no_list: Option<RedoList<u32>> = None;
    assert!(!can_redo(&no_list));
    assert!(!can_redo(&Some(RedoList::<u32>::new(3))));
    let mut list = RedoList::new(3);
    list.push(1u32);
    assert!(can_redo(&Some(list)));
}

#[test]
fn undo_with_nothing_drawn_changes_nothing() {
    let mut drawings: Vec<u32> = Vec::new();
    let mut redo_list: Option<RedoList<u32>> = None;
    assert!(!undo(&mut drawings, &mut redo_list));
    assert!(drawings.is_empty());
    assert!(redo_list.is_none());
}

#[test]
fn first_undo_creates_the_redo_list() {
    let mut drawings = vec![1u32, 2, 3];
    let mut redo_list: Option<RedoList<u32>> = None;
    assert!(undo(&mut drawings, &mut redo_list));
    assert_eq!(drawings, vec![1, 2]);
    let mut list = redo_list.expect("undo creates the redo list");
    assert_eq!(list.capacity(), REDO_LIST_SIZE);
    assert_eq!(list.pop(), Some(3));
    assert!(list.is_empty());
}

#[test]
fn undo_then_redo_restores() {
    let mut drawings = vec![1u32, 2, 3];
    let mut redo_list: Option<RedoList<u32>> = None;
    assert!(undo(&mut drawings, &mut redo_list));
    assert!(undo(&mut drawings, &mut redo_list));
    assert_eq!(drawings, vec![1]);
    assert!(redo(&mut drawings, &mut redo_list));
    assert_eq!(drawings, vec![1, 2]);
    assert!(redo(&mut drawings, &mut redo_list));
    assert_eq!(drawings, vec![1, 2, 3]);
    assert!(!redo(&mut drawings, &mut redo_list));
    assert_eq!(drawings, vec![1, 2, 3]);
    assert!(!can_redo(&redo_list));
}

#[test]
fn redo_then_undo_restores_both() {
    let mut drawings = vec![1u32];
    let mut list = RedoList::new(2);
    list.push(7u32);
    list.push(8u32);
    let mut redo_list = Some(list);
    assert!(redo(&mut drawings, &mut redo_list));
    assert_eq!(drawings, vec![1, 8]);
    assert!(undo(&mut drawings, &mut redo_list));
    assert_eq!(drawings, vec![1]);
    let mut list = redo_list.unwrap();
    assert_eq!(list.pop(), Some(8));
    assert_eq!(list.pop(), Some(7));
    assert_eq!(list.pop(), None);
}

#[test]
fn redo_without_list_changes_nothing() {
    let mut drawings = vec![4u32];
    let mut redo_list: Option<RedoList<u32>> = None;
    assert!(!redo(&mut drawings, &mut redo_list));
    assert_eq!(drawings, vec![4]);
    assert!(redo_list.is_none());
}

#[test]
fn only_the_last_ten_undos_can_be_redone() {
    let mut drawings: Vec<u32> = (0..12).collect();
    let mut redo_list: Option<RedoList<u32>> = None;
    for _ in 0..12 {
        assert!(undo(&mut drawings, &mut redo_list));
    }
    assert!(drawings.is_empty());
    let mut redone = 0;
    while redo(&mut drawings, &mut redo_list) {
        redone += 1;
    }
    assert_eq!(redone, 10);
    assert_eq!(drawings, (0..10).collect::<Vec<u32>>());
}

#[test]
fn recording_discards_undone_drawings() {
    let mut drawings = vec![1u32, 2];
    let mut redo_list: Option<RedoList<u32>> = None;
    assert!(undo(&mut drawings, &mut redo_list));
    assert!(can_redo(&redo_list));
    record(&mut drawings, &mut redo_list, 9);
    assert_eq!(drawings, vec![1, 9]);
    assert!(redo_list.is_none());
    assert!(!redo(&mut drawings, &mut redo_list));
}

#[test]
fn text_edit_replaces_the_edited_text() {
    let mut drawings = vec![1u32, 2];
    let mut redo_list: Option<RedoList<u32>> = None;
    assert!(undo(&mut drawings, &mut redo_list));
    record_replacing(&mut drawings, &mut redo_list, 5, false);
    assert_eq!(drawings, vec![1, 5]);
    assert!(redo_list.is_none());
    record_replacing(&mut drawings, &mut redo_list, 6, true);
    assert_eq!(drawings, vec![1, 6]);
    let mut empty: Vec<u32> = Vec::new();
    record_replacing(&mut empty, &mut redo_list, 3, true);
    assert_eq!(empty, vec![3]);
}

#[test]
fn buttons_enabled_exactly_when_effective() {
    let mut drawings: Vec<u32> = Vec::new();
    let mut redo_list: Option<RedoList<u32>> = None;
    assert_eq!(can_undo(&Some(drawings.clone())), undo(&mut drawings, &mut redo_list));
    assert_eq!(can_redo(&redo_list), redo(&mut drawings, &mut redo_list));
    drawings.push(4);
    assert_eq!(can_undo(&Some(drawings.clone())), undo(&mut drawings, &mut redo_list));
    assert_eq!(can_redo(&redo_list), redo(&mut drawings, &mut redo_list));
    assert_eq!(drawings, vec![4]);
}
