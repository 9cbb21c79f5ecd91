use clickdown::tui::layout::{generate_screen_title, ScrollState};

#[test]
fn test_scroll_state_new() {
    let state = ScrollState::new();
    assert_eq!(state.offset, 0);
    assert_eq!(state.max_offset, 0);
    assert!(!state.scrollable);
}

#[test]
fn test_scroll_state_update_scrollable() {
    let mut state = ScrollState::new();
    state.update(100, 50); // 100 lines of content, 50 visible
    assert!(state.scrollable);
    assert_eq!(state.max_offset, 50);
    assert_eq!(state.offset, 0);
}

#[test]
fn test_scroll_state_update_not_scrollable() {
    let mut state = ScrollState::new();
    state.update(30, 50); // 30 lines of content, 50 visible
    assert!(!state.scrollable);
    assert_eq!(state.max_offset, 0);
}

#[test]
fn test_scroll_state_scroll_up() {
    let mut state = ScrollState::new();
    state.update(100, 50);
    state.offset = 25;
    
    state.scroll_up();
    assert_eq!(state.offset, 24);
    
    // Scroll to top
    state.offset = 0;
    state.scroll_up();
    assert_eq!(state.offset, 0); // Should not go negative
}

#[test]
fn test_scroll_state_scroll_down() {
    let mut state = ScrollState::new();
    state.update(100, 50); // max_offset = 50
    
    state.scroll_down();
    assert_eq!(state.offset, 1);
    
    // Scroll to bottom
    state.offset = 50;
    state.scroll_down();
    assert_eq!(state.offset, 50); // Should not exceed max
}

#[test]
fn test_scroll_state_scroll_to() {
    let mut state = ScrollState::new();
    state.update(100, 50); // max_offset = 50
    
    state.scroll_to(25);
    assert_eq!(state.offset, 25);
    
    // Clamp to max
    state.scroll_to(100);
    assert_eq!(state.offset, 50);
}

#[test]
fn test_scroll_state_reset() {
    let mut state = ScrollState::new();
    state.update(100, 50);
    state.offset = 25;
    
    state.reset();
    assert_eq!(state.offset, 0);
}


#[test]
fn scroll_update_clamps_offset() {
    let mut state = ScrollState::new();
    state.update(100, 50);
    state.scroll_to(40);
    state.update(60, 50);
    assert_eq!(state.max_offset, 10);
    assert_eq!(state.offset, 10);
    state.update(10, 50);
    assert_eq!(state.offset, 0);
    assert!(!state.scrollable);
}

#[test]
fn screen_title_format() {
    assert_eq!(generate_screen_title("Workspaces"), "ClickDown - Workspaces");
    assert_eq!(generate_screen_title(""), "ClickDown - ");
}
