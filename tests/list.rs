use neubauten::list::List;

#[test]
fn defaults_the_cursor_to_zero_index() {
    let items = vec!["foo", "bar", "baz"];
    let list = List::new(items, 1, 10);

    let index = list.get_selected_index();

    assert_eq!(index, 0);
}

#[test]
fn it_can_move_the_cursor_down() {
    let items = vec!["foo", "bar", "baz"];

    let mut list = List::new(items, 1, 10);
    list.handle_down();

    assert_eq!(list.get_selected_index(), 1);
}

#[test]
fn it_can_move_the_cursor_up() {
    let items = vec!["foo", "bar", "baz"];

    let mut list = List::new(items, 1, 10);
    list.handle_down();
    list.handle_up();

    assert_eq!(list.get_selected_index(), 0);
}

#[test]
fn it_cant_move_above_the_first_item() {
    let items = vec!["foo"];
    let mut list = List::new(items, 1, 10);

    list.handle_up();

    assert_eq!(list.get_selected_index(), 0);
}

#[test]
fn it_cant_move_below_the_last_item() {
    let items = vec!["foo", "bar"];
    let mut list = List::new(items, 1, 10);

    list.handle_down();
    list.handle_down();

    assert_eq!(list.get_selected_index(), 1);
}

#[test]
fn it_can_select_the_last_item_with_handle_bottom() {
    let items = vec!["foo", "bar", "baz"];
    let mut list = List::new(items, 1, 10);

    list.handle_bottom();

    assert_eq!(list.get_selected_index(), 2);
}

#[test]
fn it_can_select_the_first_item_with_handle_top() {
    let items = vec!["foo", "bar"];
    let mut list = List::new(items, 1, 10);

    list.handle_bottom();
    list.handle_top();

    assert_eq!(list.get_selected_index(), 0);
}

#[test]
fn it_returns_a_clone_of_the_object_with_get_selected_item() {
    let items = vec!["foo", "bar"];
    let list = List::new(items, 1, 10);

    let item = list.get_selected_item();

    assert_eq!(item, "foo");
}

#[test]
fn down_then_up_restores_the_selection() {
    let mut list = List::new(vec!["a", "b", "c", "d"], 2, 10);
    list.handle_down();
    let before = list.get_selected_index();
    list.handle_down();
    list.handle_up();
    assert_eq!(list.get_selected_index(), before);
    assert_eq!(before, 1);
}

#[test]
fn moves_stop_at_both_ends() {
    let mut list = List::new(vec!["a", "b", "c"], 2, 10);
    list.handle_up();
    assert_eq!(list.get_selected_index(), 0);
    list.handle_bottom();
    list.handle_down();
    assert_eq!(list.get_selected_index(), 2);
}

#[test]
fn bottom_then_top_and_top_then_bottom() {
    let mut list = List::new(vec!["a", "b", "c", "d", "e"], 2, 10);
    list.handle_down();
    list.handle_bottom();
    list.handle_top();
    assert_eq!(list.get_selected_index(), 0);
    list.handle_top();
    list.handle_bottom();
    assert_eq!(list.get_selected_index(), 4);
}

#[test]
fn moves_on_a_filtered_list_follow_matching_items() {
    let mut list = List::new(vec!["apple", "berry", "apricot", "cherry"], 3, 12);
    list.set_filter("ap");
    assert_eq!(list.get_selected_index(), 0);
    list.handle_down();
    assert_eq!(list.get_selected_index(), 2);
    list.handle_down();
    assert_eq!(list.get_selected_index(), 2);
    list.handle_bottom();
    list.handle_top();
    assert_eq!(list.get_selected_index(), 0);
}

#[test]
fn the_empty_filter_matches_every_item() {
    let mut list = List::new(vec!["foo", "bar", "baz"], 5, 10);
    list.set_filter("");
    let rows = list.visible_rows(false);
    assert_eq!(rows.len(), 3);
    list.handle_bottom();
    assert_eq!(list.get_selected_index(), 2);
}

#[test]
fn an_item_text_matches_itself_and_not_a_reordering() {
    assert!(List::<&str>::does_string_match_filter("track", "track"));
    assert!(!List::<&str>::does_string_match_filter("track", "tarck"));
    assert!(!List::<&str>::does_string_match_filter("ab", "ba"));
    assert!(List::<&str>::does_string_match_filter("anything", ""));
    assert!(List::<&str>::does_string_match_filter("", ""));
    assert!(!List::<&str>::does_string_match_filter("", "a"));
}

#[test]
fn filter_is_a_subsequence_match() {
    assert!(List::<&str>::does_string_match_filter("einstuerzende", "esd"));
    assert!(!List::<&str>::does_string_match_filter("einstuerzende", "dse"));
    assert!(!List::<&str>::does_string_match_filter("abc", "aab"));
    assert!(List::<&str>::does_string_match_filter("aab", "aab"));
    assert!(!List::<&str>::does_string_match_filter("abc", "B"));
}

#[test]
fn an_item_passes_its_own_text_as_filter() {
    let mut list = List::new(vec!["foo", "bar", "baz"], 5, 10);
    list.set_filter("baz");
    assert!(list.has_selection());
    assert_eq!(list.get_selected_index(), 2);
    list.set_filter("zab");
    assert!(!list.has_selection());
}

#[test]
fn does_item_match_filter_without_a_filter_passes_everything() {
    assert!(List::<String>::does_item_match_filter(&"x".to_string(), &None));
    assert!(List::<String>::does_item_match_filter(&"xyz".to_string(), &Some("xz".to_string())));
    assert!(!List::<String>::does_item_match_filter(&"xyz".to_string(), &Some("zx".to_string())));
}

#[test]
fn clear_filter_shows_all_items_again() {
    let mut list = List::new(vec!["one", "two", "three"], 5, 10);
    list.set_filter("th");
    assert!(list.has_filter());
    assert_eq!(list.get_selected_index(), 2);
    list.clear_filter();
    assert!(!list.has_filter());
    assert_eq!(list.get_selected_index(), 0);
    assert_eq!(list.visible_rows(false).len(), 3);
}

#[test]
fn a_filter_that_matches_nothing_leaves_no_selection() {
    let mut list = List::new(vec!["one", "two"], 5, 10);
    list.set_filter("zzz");
    assert!(!list.has_selection());
    list.handle_down();
    list.handle_up();
    list.handle_bottom();
    list.handle_top();
    assert!(!list.has_selection());
    assert_eq!(list.visible_rows(false).len(), 0);
}

#[test]
fn rows_are_padded_and_the_cursor_row_is_emphasized() {
    let mut list = List::new(vec!["foo", "ba"], 5, 6);
    let rows = list.visible_rows(false);
    assert_eq!(rows.len(), 2);
    assert_eq!(rows[0].text, " foo  ");
    assert!(rows[0].emphasized);
    assert_eq!(rows[1].text, " ba   ");
    assert!(!rows[1].emphasized);
}

#[test]
fn rows_longer_than_the_width_are_not_padded() {
    let mut list = List::new(vec!["longname"], 5, 4);
    let rows = list.visible_rows(false);
    assert_eq!(rows[0].text, " longname");
}

#[test]
fn the_viewport_scrolls_one_row_at_a_time() {
    let mut list = List::new(vec!["a", "b", "c", "d"], 2, 3);
    list.handle_down();
    let rows = list.visible_rows(false);
    assert_eq!(rows[0].text, " a ");
    assert_eq!(rows[1].text, " b ");
    assert!(rows[1].emphasized);
    list.handle_down();
    let rows = list.visible_rows(false);
    assert_eq!(rows.len(), 2);
    assert_eq!(rows[0].text, " b ");
    assert_eq!(rows[1].text, " c ");
    assert!(rows[1].emphasized);
    list.handle_bottom();
    let rows = list.visible_rows(false);
    assert_eq!(rows[0].text, " c ");
    assert_eq!(rows[1].text, " d ");
    list.handle_up();
    list.handle_up();
    let rows = list.visible_rows(false);
    assert_eq!(rows[0].text, " b ");
    assert!(rows[0].emphasized);
}

#[test]
fn reset_cursor_snaps_back_to_the_top() {
    let mut list = List::new(vec!["a", "b", "c", "d"], 2, 3);
    list.handle_bottom();
    let rows = list.visible_rows(true);
    assert_eq!(list.get_selected_index(), 0);
    assert_eq!(rows[0].text, " a ");
    assert!(rows[0].emphasized);
}

#[test]
fn an_empty_list_draws_nothing() {
    let mut list: List<&str> = List::new(vec![], 2, 3);
    assert!(!list.has_selection());
    assert_eq!(list.visible_rows(true).len(), 0);
}

#[test]
fn a_viewport_without_rows_draws_nothing_but_still_moves() {
    let mut list = List::new(vec!["a", "b"], 0, 3);
    list.handle_down();
    assert_eq!(list.get_selected_index(), 1);
    assert_eq!(list.visible_rows(false).len(), 0);
}

#[test]
fn string_items_are_supported() {
    let list = List::new(vec!["x".to_string(), "y".to_string()], 1, 1);
    assert_eq!(list.get_selected_item(), "x".to_string());
}
