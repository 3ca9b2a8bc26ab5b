use powerkey::selection::ItemSelectionState;

#[test]
fn new_selection_is_empty() {
    let selection = ItemSelectionState::new();
    assert_eq!(selection.iter(), Vec::<usize>::new());
    assert_eq!(selection.get_first_selected(), None);
    assert_eq!(selection.get_last_selected(), None);
    assert!(!selection.is_selected(0));
}

#[test]
fn select_replaces_the_selection() {
    let mut selection = ItemSelectionState::new();
    selection.select(4);
    selection.select(2);
    assert_eq!(selection.iter(), vec![2]);
    assert!(selection.is_selected(2));
    assert!(!selection.is_selected(4));
}

#[test]
fn add_item_keeps_ascending_order_and_folds_duplicates() {
    let mut selection = ItemSelectionState::new();
    selection.add_item_to_selection(5);
    selection.add_item_to_selection(1);
    selection.add_item_to_selection(3);
    selection.add_item_to_selection(5);
    selection.add_item_to_selection(0);
    assert_eq!(selection.iter(), vec![0, 1, 3, 5]);
    assert_eq!(selection.get_first_selected(), Some(0));
    assert_eq!(selection.get_last_selected(), Some(5));
}

#[test]
fn unselect_empties() {
    let mut selection = ItemSelectionState::new();
    selection.add_item_to_selection(5);
    selection.unselect();
    assert_eq!(selection.iter(), Vec::<usize>::new());
}

#[test]
fn expand_to_a_larger_index() {
    let mut selection = ItemSelectionState::new();
    selection.select(2);
    selection.expand_to(5);
    assert_eq!(selection.iter(), vec![2, 3, 4, 5]);
}

#[test]
fn expand_to_a_smaller_index() {
    let mut selection = ItemSelectionState::new();
    selection.select(4);
    selection.expand_to(1);
    assert_eq!(selection.iter(), vec![1, 2, 3, 4]);
}

#[test]
fn expand_to_starts_at_the_first_selected() {
    let mut selection = ItemSelectionState::new();
    selection.add_item_to_selection(3);
    selection.add_item_to_selection(7);
    selection.expand_to(5);
    assert_eq!(selection.iter(), vec![3, 4, 5]);
}

#[test]
fn expand_to_from_nothing_starts_at_zero() {
    let mut selection = ItemSelectionState::new();
    selection.expand_to(2);
    assert_eq!(selection.iter(), vec![0, 1, 2]);
}

#[test]
fn expand_to_the_same_index() {
    let mut selection = ItemSelectionState::new();
    selection.select(3);
    selection.expand_to(3);
    assert_eq!(selection.iter(), vec![3]);
}

#[test]
fn expand_to_the_largest_index() {
    let mut selection = ItemSelectionState::new();
    selection.select(usize::MAX - 2);
    selection.expand_to(usize::MAX);
    assert_eq!(selection.iter(), vec![usize::MAX - 2, usize::MAX - 1, usize::MAX]);
}
