use wasm_runner::sections::{text_eq, Section, Sections};

#[test]
fn new_sections_are_empty() {
    let sections = Sections::new();
    assert_eq!(sections.len(), 0);
    assert!(sections.is_empty());
    assert_eq!(sections.get("text"), None);
    assert!(sections.entry(0).is_none());
}

#[test]
fn insert_then_get() {
    let mut sections = Sections::new();
    assert_eq!(sections.insert("text".to_string(), 0, 100), None);
    assert_eq!(sections.insert("data".to_string(), 100, 250), None);
    assert_eq!(sections.len(), 2);
    assert!(!sections.is_empty());
    assert_eq!(sections.get("text"), Some((0, 100)));
    assert_eq!(sections.get("data"), Some((100, 250)));
    assert_eq!(sections.get("bss"), None);
    assert_eq!(sections.get("tex"), None);
    assert_eq!(sections.get("text "), None);
}

#[test]
fn insert_replaces_in_place() {
    let mut sections = Sections::new();
    sections.insert("a".to_string(), 1, 2);
    sections.insert("b".to_string(), 3, 4);
    sections.insert("c".to_string(), 5, 6);
    assert_eq!(sections.insert("b".to_string(), 30, 40), Some((3, 4)));
    assert_eq!(sections.len(), 3);
    assert_eq!(sections.get("b"), Some((30, 40)));
    let expected = [("a", 1, 2), ("b", 30, 40), ("c", 5, 6)];
    for (i, (name, start, end)) in expected.iter().enumerate() {
        assert_eq!(
            sections.entry(i),
            Some(&Section { name: name.to_string(), start: *start, end: *end })
        );
    }
    assert!(sections.entry(3).is_none());
}

#[test]
fn names_stay_distinct() {
    let mut sections = Sections::new();
    for round in 0..3u32 {
        for name in ["x", "y", "x", "z", "y"] {
            sections.insert(name.to_string(), round, round + 1);
        }
    }
    assert_eq!(sections.len(), 3);
    for i in 0..sections.len() {
        for j in 0..sections.len() {
            if i != j {
                assert_ne!(sections.entry(i).unwrap().name, sections.entry(j).unwrap().name);
            }
        }
    }
    assert_eq!(sections.get("x"), Some((2, 3)));
}

#[test]
fn names_are_compared_exactly() {
    let mut sections = Sections::new();
    sections.insert("".to_string(), 1, 1);
    sections.insert("Text".to_string(), 2, 2);
    sections.insert("text".to_string(), 3, 3);
    sections.insert("t\u{e9}xt".to_string(), 4, 4);
    assert_eq!(sections.len(), 4);
    assert_eq!(sections.get(""), Some((1, 1)));
    assert_eq!(sections.get("Text"), Some((2, 2)));
    assert_eq!(sections.get("text"), Some((3, 3)));
    assert_eq!(sections.get("t\u{e9}xt"), Some((4, 4)));
    assert_eq!(sections.get("texT"), None);
}

#[test]
fn texts_are_equal_when_their_bytes_are() {
    assert!(text_eq("", ""));
    assert!(text_eq("abc", "abc"));
    assert!(!text_eq("abc", "abd"));
    assert!(!text_eq("abc", "ab"));
    assert!(!text_eq("ab", "abc"));
    assert!(!text_eq("", "a"));
    assert!(text_eq("\u{4e16}\u{754c}", "\u{4e16}\u{754c}"));
    assert!(!text_eq("\u{4e16}", "\u{754c}"));
}
