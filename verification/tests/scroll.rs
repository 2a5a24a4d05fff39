use temu::scroll::ScrollState;

#[test]
fn new_scroll_state() {
    let state = ScrollState::new();
    assert_eq!((state.top, state.max, state.page_size), (0, 1, 1));
    assert!(!state.is_pinned());
}

#[test]
fn scroll_is_clamped_at_both_ends() {
    let mut state = ScrollState { top: 3, max: 10, page_size: 5 };
    state.scroll(-1);
    assert_eq!(state.top, 2);
    state.scroll(-5);
    assert_eq!(state.top, 0);
    state.scroll(4);
    assert_eq!(state.top, 4);
    state.scroll(100);
    assert_eq!(state.top, 10);
    assert!(state.is_pinned());
    state.scroll(i32::MIN);
    assert_eq!(state.top, 0);
    state.scroll(i32::MAX);
    assert_eq!(state.top, 10);
    assert_eq!((state.max, state.page_size), (10, 5));
}

#[test]
fn up_then_down_returns_where_it_began() {
    let mut state = ScrollState { top: 7, max: 10, page_size: 5 };
    for _ in 0..5 {
        state.scroll(-1);
    }
    assert_eq!(state.top, 2);
    for _ in 0..5 {
        state.scroll(1);
    }
    assert_eq!(state.top, 7);
}

#[test]
fn up_past_the_first_line_does_not_return() {
    let mut state = ScrollState { top: 2, max: 10, page_size: 5 };
    for _ in 0..5 {
        state.scroll(-1);
    }
    for _ in 0..5 {
        state.scroll(1);
    }
    assert_eq!(state.top, 5);
}

#[test]
fn follow_pins_to_the_newest_lines() {
    let mut state = ScrollState { top: 2, max: 10, page_size: 5 };
    state.follow(115, 23);
    assert_eq!((state.top, state.max, state.page_size), (92, 92, 23));
    state.follow(10, 23);
    assert_eq!((state.top, state.max, state.page_size), (0, 0, 23));
}

#[test]
fn resize_keeps_the_window_or_clamps_it() {
    let mut state = ScrollState { top: 50, max: 92, page_size: 23 };
    state.resize(115, 30);
    assert_eq!((state.top, state.max, state.page_size), (50, 85, 30));
    state.resize(60, 30);
    assert_eq!((state.top, state.max, state.page_size), (30, 30, 30));
    state.scroll_to_bottom();
    assert_eq!(state.top, 30);
}

#[test]
fn thumb_shows_the_part_in_view() {
    let state = ScrollState { top: 20, max: 75, page_size: 25 };
    assert_eq!(state.thumb(600), (120, 150));
    let top = ScrollState { top: 0, max: 75, page_size: 25 };
    assert_eq!(top.thumb(600), (0, 150));
    let bottom = ScrollState { top: 75, max: 75, page_size: 25 };
    assert_eq!(bottom.thumb(600), (450, 150));
    let all = ScrollState { top: 0, max: 0, page_size: 23 };
    assert_eq!(all.thumb(600), (0, 600));
    let nothing = ScrollState { top: 0, max: 0, page_size: 0 };
    assert_eq!(nothing.thumb(600), (0, 600));
    let huge = ScrollState { top: u32::MAX, max: u32::MAX, page_size: u32::MAX };
    assert_eq!(huge.thumb(u32::MAX), (2147483647, 2147483647));
}

#[test]
fn drag_scrolls_in_proportion() {
    let mut state = ScrollState { top: 20, max: 75, page_size: 25 };
    // thumb height 150: 30 pixels are 30 * 75 / 150 = 15 lines
    state.drag(30, 600);
    assert_eq!(state.top, 35);
    state.drag(-30, 600);
    assert_eq!(state.top, 20);
    // 1 pixel is half a line: rounds away from zero
    state.drag(1, 600);
    assert_eq!(state.top, 21);
    state.drag(-1, 600);
    assert_eq!(state.top, 20);
    state.drag(-1000, 600);
    assert_eq!(state.top, 0);
    state.drag(i32::MAX, 600);
    assert_eq!(state.top, 75);
    state.drag(i32::MIN, 600);
    assert_eq!(state.top, 0);
}

#[test]
fn drag_rounds_to_the_nearest_line() {
    // thumb height 200 * 10 / 40 = 50; one pixel is 30 / 50 = 0.6 lines
    let mut state = ScrollState { top: 10, max: 30, page_size: 10 };
    state.drag(1, 200);
    assert_eq!(state.top, 11);
    state.drag(2, 200);
    assert_eq!(state.top, 12);
    state.drag(3, 200);
    assert_eq!(state.top, 14);
    state.drag(-4, 200);
    assert_eq!(state.top, 12);
}

#[test]
fn drag_by_nothing_changes_nothing() {
    for top in [0u32, 20, 75] {
        let mut state = ScrollState { top, max: 75, page_size: 25 };
        state.drag(0, 600);
        assert_eq!(state.top, top);
        state.drag(0, 0);
        assert_eq!(state.top, top);
    }
}

#[test]
fn drag_without_thumb_height_changes_nothing() {
    let mut state = ScrollState { top: 5, max: 1000, page_size: 1 };
    assert_eq!(state.thumb(100).1, 0);
    state.drag(50, 100);
    assert_eq!(state.top, 5);
}
