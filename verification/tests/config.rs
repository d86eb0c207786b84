use wasm_runner::config::read_sections;
use wasm_runner::error::HostError;
use wasm_runner::sections::{Section, Sections};

fn entries(sections: &Sections) -> Vec<(String, u32, u32)> {
    let mut found = Vec::new();
    let mut i = 0;
    while let Some(Section { name, start, end }) = sections.entry(i) {
        found.push((name.clone(), *start, *end));
        i += 1;
    }
    found
}

#[test]
fn one_section() {
    let sections = read_sections(r#"{"text": [0, 100]}"#).unwrap();
    assert_eq!(sections.len(), 1);
    assert_eq!(sections.get("text"), Some((0, 100)));
    assert_eq!(entries(&sections), vec![("text".to_string(), 0, 100)]);
}

#[test]
fn no_section() {
    let sections = read_sections(" {\n} ").unwrap();
    assert!(sections.is_empty());
}

#[test]
fn sections_come_in_the_order_of_their_names() {
    let text = r#"{
        "text": [0, 4096],
        "bss": [8192, 12288],
        "data": [4096, 8192],
        "Zed": [4294967295, 0]
    }"#;
    let sections = read_sections(text).unwrap();
    assert_eq!(
        entries(&sections),
        vec![
            ("Zed".to_string(), u32::MAX, 0),
            ("bss".to_string(), 8192, 12288),
            ("data".to_string(), 4096, 8192),
            ("text".to_string(), 0, 4096),
        ]
    );
}

#[test]
fn names_are_taken_as_written() {
    let sections = read_sections(r#"{"text":[1,2],"":[3,4],"a b":[5,6]}"#).unwrap();
    assert_eq!(sections.get("text"), Some((1, 2)));
    assert_eq!(sections.get(""), Some((3, 4)));
    assert_eq!(sections.get("a b"), Some((5, 6)));
    assert_eq!(sections.len(), 3);
}

#[test]
fn a_name_given_twice_keeps_its_last_range() {
    let sections = read_sections(r#"{"a":[1,2],"b":[0,0],"a":[3,4]}"#).unwrap();
    assert_eq!(entries(&sections), vec![("a".to_string(), 3, 4), ("b".to_string(), 0, 0)]);
}

#[test]
fn malformed_files_are_refused() {
    for text in [
        "",
        "{",
        "[]",
        "null",
        r#"{"text": [0]}"#,
        r#"{"text": [0, 1, 2]}"#,
        r#"{"text": 7}"#,
        r#"{"text": {"start": 0, "end": 1}}"#,
        r#"{"text": [0, 4294967296]}"#,
        r#"{"text": [-1, 0]}"#,
        r#"{"text": [0.5, 1]}"#,
        r#"{"text": ["0", "1"]}"#,
        r#"{"text": [0, 1]} trailing"#,
        r#"{"text": [0, 1],}"#,
        r#"{text: [0, 1]}"#,
    ] {
        assert_eq!(read_sections(text).unwrap_err(), HostError::Configuration, "{text:?}");
    }
}

#[test]
fn sections_from_entries() {
    let list = vec![
        Section { name: "a".to_string(), start: 1, end: 2 },
        Section { name: "b".to_string(), start: 3, end: 4 },
        Section { name: "a".to_string(), start: 5, end: 6 },
        Section { name: "c".to_string(), start: 7, end: 8 },
    ];
    let sections = Sections::from_entries(list);
    assert_eq!(
        entries(&sections),
        vec![("a".to_string(), 5, 6), ("b".to_string(), 3, 4), ("c".to_string(), 7, 8)]
    );
    assert!(Sections::from_entries(Vec::new()).is_empty());
}
