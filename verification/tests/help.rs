use clickdown::tui::widgets::help::{get_help_hints, page_lines, page_title, section, HelpContext, HelpState};

#[test]
fn test_help_state_new() {
    let state = HelpState::new();
    assert!(!state.visible);
    assert_eq!(state.page, 0);
}

#[test]
fn test_help_state_toggle_resets_page() {
    let mut state = HelpState::new();
    state.visible = true;
    state.page = 2;
    state.toggle(); // closes
    state.toggle(); // opens
    assert!(state.visible);
    assert_eq!(state.page, 0);
}

#[test]
fn test_help_state_next_page_wrapping() {
    let mut state = HelpState::new();
    state.visible = true;

    state.next_page();
    assert_eq!(state.page, 1);

    state.next_page();
    assert_eq!(state.page, 2);

    // Wrap from last to first
    state.next_page();
    assert_eq!(state.page, 0);
}

#[test]
fn test_help_state_prev_page_wrapping() {
    let mut state = HelpState::new();
    state.visible = true;
    state.page = 1;

    state.prev_page();
    assert_eq!(state.page, 0);

    // Wrap from first to last
    state.prev_page();
    assert_eq!(state.page, 2);
}

#[test]
fn test_help_state_hide_resets() {
    let mut state = HelpState::new();
    state.visible = true;
    state.page = 2;
    state.close();
    assert!(!state.visible);
    assert_eq!(state.page, 0);
}

#[test]
fn test_page_title_format() {
    let ctx = HelpContext::TaskList;
    assert_eq!(page_title(&ctx, 0), " Keyboard Shortcuts — Task List  (1/3) ");
    assert_eq!(page_title(&ctx, 1), " Keyboard Shortcuts — Global  (2/3) ");
    assert_eq!(page_title(&ctx, 2), " Keyboard Shortcuts — Reference  (3/3) ");
}

#[test]
fn test_page_lines_page2_is_always_global() {
    // Page 2 should always include Navigation, Global, Actions, Forms
    let contexts = [
        HelpContext::Auth,
        HelpContext::Navigation,
        HelpContext::TaskList,
        HelpContext::TaskDetail,
        HelpContext::Comments,
        HelpContext::Document,
    ];
    for ctx in contexts {
        let lines = page_lines(&ctx, 1);
        assert!(!lines.is_empty(), "Page 2 should not be empty for {:?}", ctx);
    }
}

#[test]
fn test_help_hints_format() {
    let mut state = HelpState::new();
    state.visible = true;

    let hints = get_help_hints(&state);
    assert_eq!(hints, "j/k: Pages | Esc: Close | 1/3");

    state.page = 2;
    let hints = get_help_hints(&state);
    assert_eq!(hints, "j/k: Pages | Esc: Close | 3/3");
}

#[test]
fn test_section_format() {
    let lines = section("Test", &[("a", "Do something"), ("b", "Do other")]);
    assert_eq!(lines.len(), 3); // title + 2 items
    assert!(lines[0].bold); // title is bold
}

#[test]
fn test_contextual_page1_content() {
    // TaskList page 1 should contain task list shortcuts
    let lines = page_lines(&HelpContext::TaskList, 0);
    assert!(!lines.is_empty());

    // TaskDetail page 1 should contain task detail shortcuts
    let lines = page_lines(&HelpContext::TaskDetail, 0);
    assert!(!lines.is_empty());

    // Comments page 1 should contain comments shortcuts
    let lines = page_lines(&HelpContext::Comments, 0);
    assert!(!lines.is_empty());
}

#[test]
fn test_page3_complement() {
    // Page 3 should be different from page 1 for TaskList
    let page1 = page_lines(&HelpContext::TaskList, 0);
    let page3 = page_lines(&HelpContext::TaskList, 2);
    assert_ne!(page1.len(), page3.len(), "Page 3 should differ from page 1");
}


#[test]
fn help_pages_cycle_both_ways() {
    let mut state = HelpState::new();
    for _ in 0..3 {
        state.next_page();
    }
    assert_eq!(state.page, 0);
    state.next_page();
    state.prev_page();
    assert_eq!(state.page, 0);
}

#[test]
fn section_lines_are_padded() {
    let lines = section("Test", &[("a", "Do something")]);
    assert_eq!(lines[0].text, "Test");
    assert_eq!(lines[1].text, "  a             - Do something");
    assert!(!lines[1].bold);
}

#[test]
fn auth_page1_lines() {
    let lines = page_lines(&HelpContext::Auth, 0);
    let texts: Vec<&str> = lines.iter().map(|l| l.text.as_str()).collect();
    assert_eq!(
        texts,
        vec!["Auth", "  Enter         - Connect to ClickUp", "  Esc           - Cancel", ""]
    );
}
