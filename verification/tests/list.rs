use bizray_tui::list::ScrollableList;

#[test]
fn test_scrollable_list_new() {
    let list = ScrollableList::new(vec![1, 2, 3, 4, 5]);
    assert_eq!(list.len(), 5);
    assert_eq!(list.selected, 0);
    assert_eq!(list.scroll_offset, 0);
}

#[test]
fn test_scrollable_list_navigation() {
    let mut list = ScrollableList::new(vec![1, 2, 3, 4, 5]);

    list.next(3);
    assert_eq!(list.selected, 1);

    list.previous();
    assert_eq!(list.selected, 0);

    list.last(3);
    assert_eq!(list.selected, 4);

    list.first();
    assert_eq!(list.selected, 0);
}

#[test]
fn test_scrollable_list_scrolling() {
    let mut list = ScrollableList::new(vec![1, 2, 3, 4, 5, 6, 7, 8, 9, 10]);

    for _ in 0..5 {
        list.next(3);
    }

    assert_eq!(list.selected, 5);
    assert!(list.scroll_offset > 0);

    for _ in 0..3 {
        list.previous();
    }

    assert_eq!(list.selected, 2);
}

#[test]
fn test_scrollable_list_selected_item() {
    let mut list = ScrollableList::new(vec!["a", "b", "c"]);

    assert_eq!(list.selected_item(), Some(&"a"));

    list.next(3);
    assert_eq!(list.selected_item(), Some(&"b"));

    list.last(3);
    assert_eq!(list.selected_item(), Some(&"c"));
}

#[test]
fn test_scrollable_list_visible_items() {
    let list = ScrollableList::new(vec![1, 2, 3, 4, 5, 6, 7, 8, 9, 10]);

    let visible = list.visible_items(5);
    assert_eq!(visible, &[1, 2, 3, 4, 5]);
}

#[test]
fn test_scrollable_list_page_navigation() {
    let mut list = ScrollableList::new(vec![1, 2, 3, 4, 5, 6, 7, 8, 9, 10, 11, 12, 13, 14, 15]);

    list.page_down(5);
    assert!(list.selected >= 5);

    list.page_up(5);
    assert!(list.selected < 10);
}

#[test]
fn test_scrollable_list_clear() {
    let mut list = ScrollableList::new(vec![1, 2, 3]);
    list.next(3);

    list.clear();
    assert!(list.is_empty());
    assert_eq!(list.selected, 0);
    assert_eq!(list.scroll_offset, 0);
}

#[test]
fn list_scroll_follows_selection_exactly() {
    let mut list = ScrollableList::new((0..10).collect::<Vec<u32>>());
    list.next(3);
    list.next(3);
    assert_eq!((list.selected, list.scroll_offset), (2, 0));
    list.next(3);
    assert_eq!((list.selected, list.scroll_offset), (3, 1));
    list.previous();
    assert_eq!((list.selected, list.scroll_offset), (2, 1));
    list.previous();
    list.previous();
    assert_eq!((list.selected, list.scroll_offset), (0, 0));
    list.previous();
    assert_eq!((list.selected, list.scroll_offset), (0, 0));
    list.last(3);
    assert_eq!((list.selected, list.scroll_offset), (9, 7));
    list.next(3);
    assert_eq!((list.selected, list.scroll_offset), (9, 7));
    list.first();
    assert_eq!((list.selected, list.scroll_offset), (0, 0));
    list.last(20);
    assert_eq!((list.selected, list.scroll_offset), (9, 0));
}

#[test]
fn list_pages_move_by_window_height_and_at_most_ten() {
    let mut list = ScrollableList::new((0..40).collect::<Vec<u32>>());
    list.page_down(5);
    assert_eq!((list.selected, list.scroll_offset), (5, 1));
    list.page_down(5);
    assert_eq!((list.selected, list.scroll_offset), (10, 6));
    list.page_up(5);
    assert_eq!((list.selected, list.scroll_offset), (5, 5));
    list.page_up(5);
    list.page_up(5);
    assert_eq!((list.selected, list.scroll_offset), (0, 0));
    list.page_down(25);
    assert_eq!((list.selected, list.scroll_offset), (10, 0));
    list.page_down(25);
    list.page_down(25);
    assert_eq!((list.selected, list.scroll_offset), (30, 6));
    list.page_down(25);
    assert_eq!((list.selected, list.scroll_offset), (39, 15));
    list.page_up(25);
    assert_eq!((list.selected, list.scroll_offset), (29, 15));
}

#[test]
fn list_selection_stays_inside_window_and_list() {
    let rows = 4;
    let mut list = ScrollableList::new((0..13).collect::<Vec<u32>>());
    let script = "nnnnnnPUpplLfnUPPPPpUUUnnlupPf";
    for op in script.chars() {
        match op {
            'n' => list.next(rows),
            'p' => list.previous(),
            'P' => list.page_down(rows),
            'U' => list.page_up(rows),
            'l' | 'L' => list.last(rows),
            _ => list.first(),
        }
        assert!(list.selected < list.len());
        assert!(list.scroll_offset <= list.selected);
        assert!(list.selected < list.scroll_offset + rows);
        assert_eq!(list.selected_in_view(), list.selected - list.scroll_offset);
    }
}

#[test]
fn list_empty_is_left_alone() {
    let mut list: ScrollableList<u8> = ScrollableList::default();
    list.next(3);
    list.previous();
    list.first();
    list.last(3);
    list.page_down(3);
    list.page_up(3);
    assert!(list.is_empty());
    assert_eq!(list.len(), 0);
    assert_eq!((list.selected, list.scroll_offset), (0, 0));
    assert_eq!(list.selected_item(), None);
    assert!(list.visible_items(3).is_empty());
    assert!(!list.can_scroll_up());
    assert!(!list.can_scroll_down(3));
    assert_eq!(list.selected_in_view(), 0);
}

#[test]
fn list_window_of_no_rows() {
    let mut list = ScrollableList::new(vec![1, 2, 3, 4]);
    assert!(list.visible_items(0).is_empty());
    list.next(0);
    assert_eq!((list.selected, list.scroll_offset), (1, 1));
    list.page_down(0);
    assert_eq!((list.selected, list.scroll_offset), (1, 1));
    list.last(0);
    assert_eq!((list.selected, list.scroll_offset), (3, 3));
    list.page_up(0);
    assert_eq!((list.selected, list.scroll_offset), (3, 3));
}

#[test]
fn list_visible_items_is_the_window() {
    let mut list = ScrollableList::with_items(vec![1, 2, 3, 4, 5, 6, 7]);
    list.last(3);
    assert_eq!(list.visible_items(3), &[5, 6, 7]);
    assert_eq!(list.visible_items(10), &[5, 6, 7]);
    assert_eq!(list.visible_items(2), &[5, 6]);
    assert!(list.can_scroll_up());
    assert!(!list.can_scroll_down(3));
    list.first();
    assert!(!list.can_scroll_up());
    assert!(list.can_scroll_down(3));
    assert!(!list.can_scroll_down(7));
    assert!(!list.can_scroll_down(usize::MAX));
}

#[test]
fn list_set_items_resets_cursor() {
    let mut list = ScrollableList::new(vec![1, 2, 3, 4, 5, 6]);
    list.last(2);
    list.set_items(vec![9, 8]);
    assert_eq!(list.items, vec![9, 8]);
    assert_eq!((list.selected, list.scroll_offset), (0, 0));
    assert_eq!(list.selected_item(), Some(&9));
    if let Some(item) = list.selected_item_mut() {
        *item = 7;
    }
    assert_eq!(list.items, vec![7, 8]);
    let copy = list.clone();
    assert_eq!(copy.items, vec![7, 8]);
}

#[test]
fn list_next_follows_into_a_lower_window() {
    let mut list = ScrollableList::new(vec![1, 2, 3, 4, 5, 6, 7, 8, 9, 10]);
    for _ in 0..5 {
        list.next(10);
    }
    assert_eq!((list.selected, list.scroll_offset), (5, 0));
    list.next(3);
    assert_eq!(list.selected, 6);
    assert!(list.scroll_offset <= 6 && 6 < list.scroll_offset + 3);
    assert_eq!(list.scroll_offset, 4);

    list.last(10);
    assert_eq!((list.selected, list.scroll_offset), (9, 0));
    list.next(3);
    assert_eq!((list.selected, list.scroll_offset), (9, 7));
}

#[test]
fn list_page_up_follows_into_a_lower_window() {
    let mut list = ScrollableList::new(vec![1, 2, 3, 4, 5, 6, 7, 8, 9, 10]);
    list.last(10);
    assert_eq!((list.selected, list.scroll_offset), (9, 0));
    list.page_up(3);
    assert_eq!((list.selected, list.scroll_offset), (6, 4));
    list.page_up(3);
    assert_eq!((list.selected, list.scroll_offset), (3, 3));

    list.last(10);
    list.page_down(3);
    assert_eq!((list.selected, list.scroll_offset), (9, 7));
}
