use termnote::lookup::{position_of_text, select_marked};

fn texts(items: &[&str]) -> Vec<String> {
    items.iter().map(|s| s.to_string()).collect()
}

#[test]
fn the_first_position_of_a_text_is_found() {
    let all = texts(&["a", "b", "a", "c"]);
    assert_eq!(position_of_text(&all, "a"), Some(0));
    assert_eq!(position_of_text(&all, "b"), Some(1));
    assert_eq!(position_of_text(&all, "c"), Some(3));
}

#[test]
fn a_text_that_is_absent_has_no_position() {
    let all = texts(&["a", "b"]);
    assert_eq!(position_of_text(&all, "A"), None);
    assert_eq!(position_of_text(&all, ""), None);
    assert_eq!(position_of_text(&Vec::new(), "a"), None);
}

#[test]
fn marked_items_are_selected_in_order() {
    let items = vec![10, 20, 30, 40];
    assert_eq!(select_marked(&items, &vec![true, false, true, true]), vec![&10, &30, &40]);
    assert_eq!(select_marked(&items, &vec![false, false, false, false]), Vec::<&i32>::new());
}

#[test]
fn items_without_a_mark_are_left_out() {
    let items = vec![10, 20, 30];
    assert_eq!(select_marked(&items, &vec![true]), vec![&10]);
    assert_eq!(select_marked(&items, &Vec::new()), Vec::<&i32>::new());
    assert_eq!(select_marked(&items, &vec![false, true, true, true, true]), vec![&20, &30]);
}
