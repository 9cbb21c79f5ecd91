use clickdown::tui::widgets::sidebar::{SidebarItem, SidebarState};

#[test]
fn test_select_by_id_finds_matching_item() {
    let mut state = SidebarState::new();
    *state.items_mut() = vec![
        SidebarItem::Workspace {
            name: "WS1".to_string(),
            id: "ws-1".to_string(),
        },
        SidebarItem::Workspace {
            name: "WS2".to_string(),
            id: "ws-2".to_string(),
        },
        SidebarItem::Workspace {
            name: "WS3".to_string(),
            id: "ws-3".to_string(),
        },
    ];

    let found = state.select_by_id("ws-2");

    assert!(found, "Should find matching ID");
    assert_eq!(state.state(), Some(1), "Should select index 1");
}

#[test]
fn test_select_by_id_returns_false_for_non_existent_id() {
    let mut state = SidebarState::new();
    *state.items_mut() = vec![
        SidebarItem::Workspace {
            name: "WS1".to_string(),
            id: "ws-1".to_string(),
        },
        SidebarItem::Workspace {
            name: "WS2".to_string(),
            id: "ws-2".to_string(),
        },
    ];

    let found = state.select_by_id("ws-nonexistent");

    assert!(!found, "Should not find non-existent ID");
    assert_eq!(
        state.state(),
        None,
        "Should not change selection"
    );
}

#[test]
fn test_select_by_id_empty_items() {
    let mut state = SidebarState::new();

    let found = state.select_by_id("any-id");

    assert!(!found, "Should not find ID in empty list");
}

#[test]
fn test_sidebar_item_id() {
    let workspace = SidebarItem::Workspace {
        name: "Test".to_string(),
        id: "ws-123".to_string(),
    };
    assert_eq!(workspace.id(), "ws-123");

    let space = SidebarItem::Space {
        name: "Test".to_string(),
        id: "sp-456".to_string(),
    };
    assert_eq!(space.id(), "sp-456");

    let folder = SidebarItem::Folder {
        name: "Test".to_string(),
        id: "fd-789".to_string(),
    };
    assert_eq!(folder.id(), "fd-789");

    let list = SidebarItem::List {
        name: "Test".to_string(),
        id: "lt-abc".to_string(),
    };
    assert_eq!(list.id(), "lt-abc");
}


#[test]
fn select_by_id_takes_first_duplicate() {
    let mut state = SidebarState::new();
    *state.items_mut() = vec![
        SidebarItem::List { name: "A".to_string(), id: "x".to_string() },
        SidebarItem::Folder { name: "B".to_string(), id: "y".to_string() },
        SidebarItem::Space { name: "C".to_string(), id: "y".to_string() },
    ];
    assert!(state.select_by_id("y"));
    assert_eq!(state.state(), Some(1));
    state.select_next();
    state.select_next();
    assert_eq!(state.state(), Some(0));
    assert!(state.visible);
}
