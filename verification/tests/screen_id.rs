use clickdown::screen_id::{generate_screen_id, validate_screen_id};

#[test]
fn test_id_has_correct_length() {
    let id = generate_screen_id("test-screen");
    assert_eq!(id.len(), 4);
}

#[test]
fn test_id_contains_valid_characters() {
    let id = generate_screen_id("test-screen");
    assert!(validate_screen_id(&id));
}

#[test]
fn test_id_is_deterministic() {
    let id1 = generate_screen_id("auth");
    let id2 = generate_screen_id("auth");
    assert_eq!(id1, id2);
}

#[test]
fn test_different_screens_have_different_ids() {
    let id1 = generate_screen_id("auth");
    let id2 = generate_screen_id("task-list");
    let id3 = generate_screen_id("document-view");
    
    assert_ne!(id1, id2);
    assert_ne!(id2, id3);
    assert_ne!(id1, id3);
}

#[test]
fn test_id_uses_lowercase() {
    let id = generate_screen_id("test-screen");
    assert!(id.chars().all(|c| c.is_ascii_lowercase() || c.is_ascii_digit()));
}

#[test]
fn test_validate_screen_id() {
    assert!(validate_screen_id("a3f9"));
    assert!(validate_screen_id("0000"));
    assert!(validate_screen_id("zzzz"));
    assert!(validate_screen_id("12ab"));
    
    assert!(!validate_screen_id("ABC1")); // uppercase
    assert!(!validate_screen_id("a3f"));  // too short
    assert!(!validate_screen_id("a3f99")); // too long
    assert!(!validate_screen_id("a3-g")); // invalid char
}


#[test]
fn generated_ids_are_always_valid() {
    for name in ["", "a", "help", "task-detail", "ü-screen", "x".repeat(100).as_str()] {
        let id = generate_screen_id(name);
        assert!(validate_screen_id(&id), "{}", id);
    }
}
