use wasm_runner::devicetree::{build, build_with_seed, create_devicetree};
use wasm_runner::error::EncodingError;
use wasm_runner::sections::Sections;

/// An entry of the structure block of a blob.
#[derive(Debug, Clone, PartialEq, Eq)]
enum Token {
    Begin(String),
    Property(String, Vec<u8>),
    End,
}

fn be32_at(blob: &[u8], at: usize) -> u32 {
    u32::from_be_bytes([blob[at], blob[at + 1], blob[at + 2], blob[at + 3]])
}

fn text_at(bytes: &[u8], at: usize) -> String {
    let mut end = at;
    while bytes[end] != 0 {
        end += 1;
    }
    String::from_utf8(bytes[at..end].to_vec()).unwrap()
}

fn pad4(n: usize) -> usize {
    (n + 3) / 4 * 4
}

/// Reads a flattened devicetree back into its entries.
fn decode(blob: &[u8]) -> Vec<Token> {
    assert_eq!(be32_at(blob, 0), 0xd00d_feed);
    assert_eq!(be32_at(blob, 4) as usize, blob.len());
    let off_struct = be32_at(blob, 8) as usize;
    let off_strings = be32_at(blob, 12) as usize;
    let size_strings = be32_at(blob, 32) as usize;
    let size_struct = be32_at(blob, 36) as usize;
    assert_eq!(off_struct + size_struct, off_strings);
    assert_eq!(off_strings + size_strings, blob.len());
    let strings = &blob[off_strings..];
    let mut tokens = Vec::new();
    let mut at = off_struct;
    loop {
        let tag = be32_at(blob, at);
        at += 4;
        match tag {
            1 => {
                let name = text_at(blob, at);
                at += pad4(name.len() + 1);
                tokens.push(Token::Begin(name));
            }
            2 => tokens.push(Token::End),
            3 => {
                let len = be32_at(blob, at) as usize;
                let name = text_at(strings, be32_at(blob, at + 4) as usize);
                at += 8;
                tokens.push(Token::Property(name, blob[at..at + len].to_vec()));
                at += pad4(len);
            }
            9 => break,
            other => panic!("unexpected tag {other}"),
        }
    }
    assert_eq!(at, off_strings);
    tokens
}

fn property(name: &str, value: Vec<u8>) -> Token {
    Token::Property(name.to_string(), value)
}

fn cells(values: &[u32]) -> Vec<u8> {
    let mut bytes = Vec::new();
    for v in values {
        bytes.extend_from_slice(&v.to_be_bytes());
    }
    bytes
}

fn closed(text: &str) -> Vec<u8> {
    let mut bytes = text.as_bytes().to_vec();
    bytes.push(0);
    bytes
}

fn seed_bytes(seed: &[u64; 8]) -> Vec<u8> {
    let mut bytes = Vec::new();
    for v in seed {
        bytes.extend_from_slice(&v.to_be_bytes());
    }
    bytes
}

/// The properties of the child `node` of the root.
fn properties_of(tokens: &[Token], node: &str) -> Vec<(String, Vec<u8>)> {
    let mut depth = 0;
    let mut inside = false;
    let mut found = Vec::new();
    for token in tokens {
        match token {
            Token::Begin(name) => {
                depth += 1;
                inside = depth == 2 && name == node;
            }
            Token::End => {
                depth -= 1;
                inside = false;
            }
            Token::Property(name, value) => {
                if inside {
                    found.push((name.clone(), value.clone()));
                }
            }
        }
    }
    found
}

const SEED: [u64; 8] = [
    0x0102_0304_0506_0708,
    2,
    3,
    4,
    5,
    6,
    7,
    0xffff_ffff_ffff_ffff,
];

fn text_section() -> Sections {
    let mut sections = Sections::new();
    assert_eq!(sections.insert("text".to_string(), 0, 100), None);
    sections
}

#[test]
fn description_is_written_entry_by_entry() {
    let blob = build_with_seed("no_hash_pointers", &text_section(), 1 << 20, 4, &SEED).unwrap();
    let expected = vec![
        Token::Begin("root".to_string()),
        property("#address-cells", cells(&[1])),
        property("#size-cells", cells(&[1])),
        property("ncpus", cells(&[4])),
        Token::Begin("chosen".to_string()),
        property("rng-seed", seed_bytes(&SEED)),
        property("bootargs", closed("no_hash_pointers")),
        Token::End,
        Token::Begin("aliases".to_string()),
        Token::End,
        Token::Begin("memory".to_string()),
        property("device_type", closed("memory")),
        property("reg", cells(&[0, 1_048_576])),
        Token::End,
        Token::Begin("data-sections".to_string()),
        property("text", cells(&[0, 100])),
        Token::End,
        Token::End,
    ];
    assert_eq!(decode(&blob), expected);
}

#[test]
fn text_section_in_one_mebibyte() {
    let blob = build("no_hash_pointers", &text_section(), 1_048_576, 1).unwrap();
    let tokens = decode(&blob);
    assert_eq!(
        properties_of(&tokens, "memory"),
        vec![
            ("device_type".to_string(), closed("memory")),
            ("reg".to_string(), vec![0, 0, 0, 0, 0, 0x10, 0, 0]),
        ]
    );
    assert_eq!(
        properties_of(&tokens, "data-sections"),
        vec![("text".to_string(), vec![0, 0, 0, 0, 0, 0, 0, 100])]
    );
    let chosen = properties_of(&tokens, "chosen");
    assert_eq!(chosen.len(), 2);
    assert_eq!(chosen[0].0, "rng-seed");
    assert_eq!(chosen[0].1.len(), 64);
    assert_eq!(chosen[1], ("bootargs".to_string(), b"no_hash_pointers\0".to_vec()));
    assert!(properties_of(&tokens, "aliases").is_empty());
}

#[test]
fn root_has_four_children_in_order() {
    let blob = build_with_seed("", &Sections::new(), 0, 1, &SEED).unwrap();
    let tokens = decode(&blob);
    let mut depth = 0;
    let mut children = Vec::new();
    for token in &tokens {
        match token {
            Token::Begin(name) => {
                depth += 1;
                if depth == 2 {
                    children.push(name.clone());
                }
                assert!(depth <= 2);
            }
            Token::End => depth -= 1,
            Token::Property(..) => {}
        }
    }
    assert_eq!(depth, 0);
    assert_eq!(children, vec!["chosen", "aliases", "memory", "data-sections"]);
    assert_eq!(tokens[0], Token::Begin("root".to_string()));
}

#[test]
fn one_property_per_section() {
    let mut sections = Sections::new();
    sections.insert("text".to_string(), 0, 100);
    sections.insert("data".to_string(), 100, 0x1234_5678);
    sections.insert("bss".to_string(), 0xffff_ffff, 0);
    sections.insert("data".to_string(), 7, 9);
    let blob = build_with_seed("quiet", &sections, 4096, 2, &SEED).unwrap();
    assert_eq!(
        properties_of(&decode(&blob), "data-sections"),
        vec![
            ("text".to_string(), cells(&[0, 100])),
            ("data".to_string(), cells(&[7, 9])),
            ("bss".to_string(), cells(&[0xffff_ffff, 0])),
        ]
    );
}

#[test]
fn memory_region_for_sizes() {
    for size in [0u32, 1, 0x1_0000, 0x0800_0000, 0xfff0_0000, u32::MAX] {
        let blob = build_with_seed("x", &Sections::new(), size, 1, &SEED).unwrap();
        let memory = properties_of(&decode(&blob), "memory");
        assert_eq!(memory[1], ("reg".to_string(), cells(&[0, size])));
    }
}

#[test]
fn cells_are_big_endian() {
    let mut sections = Sections::new();
    sections.insert("s".to_string(), 0x0102_0304, 0xa0b0_c0d0);
    let blob = build_with_seed("", &sections, 0x1122_3344, 0x5566_7788, &SEED).unwrap();
    let tokens = decode(&blob);
    assert_eq!(tokens[3], property("ncpus", vec![0x55, 0x66, 0x77, 0x88]));
    assert_eq!(
        properties_of(&tokens, "data-sections")[0].1,
        vec![0x01, 0x02, 0x03, 0x04, 0xa0, 0xb0, 0xc0, 0xd0]
    );
    assert_eq!(
        properties_of(&tokens, "memory")[1].1,
        vec![0, 0, 0, 0, 0x11, 0x22, 0x33, 0x44]
    );
    let seed = &properties_of(&tokens, "chosen")[0].1;
    assert_eq!(&seed[..8], &[1, 2, 3, 4, 5, 6, 7, 8]);
    assert_eq!(&seed[8..16], &[0, 0, 0, 0, 0, 0, 0, 2]);
    assert_eq!(&seed[56..], &[0xff; 8]);
}

#[test]
fn same_inputs_same_blob() {
    let a = build_with_seed("a b c", &text_section(), 1 << 20, 8, &SEED).unwrap();
    let b = build_with_seed("a b c", &text_section(), 1 << 20, 8, &SEED).unwrap();
    assert_eq!(a, b);
}

#[test]
fn seed_is_drawn_afresh() {
    let first = build("", &Sections::new(), 0, 1).unwrap();
    let second = build("", &Sections::new(), 0, 1).unwrap();
    let seed_of = |blob: &[u8]| properties_of(&decode(blob), "chosen")[0].1.clone();
    assert_eq!(seed_of(&first).len(), 64);
    assert_ne!(seed_of(&first), seed_of(&second));
    assert_ne!(seed_of(&first), vec![0u8; 64]);
}

#[test]
fn boot_arguments_keep_their_bytes() {
    let cmdline = "console=hvc0 \u{e9}\u{4e16}";
    let blob = build_with_seed(cmdline, &Sections::new(), 0, 1, &SEED).unwrap();
    let chosen = properties_of(&decode(&blob), "chosen");
    assert_eq!(chosen[1].1, closed("console=hvc0 \u{e9}\u{4e16}"));
}

#[test]
fn zero_byte_in_boot_arguments_is_refused() {
    let r = build_with_seed("a\0b", &text_section(), 1 << 20, 1, &SEED);
    assert_eq!(r, Err(EncodingError::InvalidString));
    let mut bad = Sections::new();
    bad.insert("not valid".to_string(), 0, 1);
    assert_eq!(build_with_seed("\0", &bad, 0, 1, &SEED), Err(EncodingError::InvalidString));
}

#[test]
fn section_names_must_be_property_names() {
    for name in ["", "has space", "slash/", "at@1", "\u{e9}", "colon:", "x".repeat(32).as_str()] {
        let mut sections = Sections::new();
        sections.insert("fine".to_string(), 1, 2);
        sections.insert(name.to_string(), 0, 100);
        assert_eq!(
            build_with_seed("", &sections, 0, 1, &SEED),
            Err(EncodingError::InvalidPropertyName),
            "{name:?}"
        );
    }
    let mut sections = Sections::new();
    sections.insert("nul\0".to_string(), 0, 100);
    assert_eq!(build_with_seed("", &sections, 0, 1, &SEED), Err(EncodingError::InvalidString));
}

#[test]
fn first_bad_section_name_decides() {
    let mut sections = Sections::new();
    sections.insert("ok".to_string(), 0, 1);
    sections.insert("a\0".to_string(), 0, 1);
    sections.insert("b c".to_string(), 0, 1);
    assert_eq!(build_with_seed("", &sections, 0, 1, &SEED), Err(EncodingError::InvalidString));
    let mut sections = Sections::new();
    sections.insert("b c".to_string(), 0, 1);
    sections.insert("a\0".to_string(), 0, 1);
    assert_eq!(
        build_with_seed("", &sections, 0, 1, &SEED),
        Err(EncodingError::InvalidPropertyName)
    );
}

#[test]
fn every_property_name_character_is_accepted() {
    let mut sections = Sections::new();
    sections.insert("azAZ09,._+?#-".to_string(), 1, 2);
    sections.insert("x".repeat(31), 3, 4);
    sections.insert("#".to_string(), 5, 6);
    let blob = build_with_seed("", &sections, 0, 1, &SEED).unwrap();
    assert_eq!(
        properties_of(&decode(&blob), "data-sections"),
        vec![
            ("azAZ09,._+?#-".to_string(), cells(&[1, 2])),
            ("x".repeat(31), cells(&[3, 4])),
            ("#".to_string(), cells(&[5, 6])),
        ]
    );
}

#[test]
fn section_may_share_a_name_with_another_property() {
    let mut sections = Sections::new();
    sections.insert("reg".to_string(), 1, 2);
    sections.insert("bootargs".to_string(), 3, 4);
    let blob = build_with_seed("", &sections, 9, 1, &SEED).unwrap();
    let tokens = decode(&blob);
    assert_eq!(properties_of(&tokens, "memory")[1], ("reg".to_string(), cells(&[0, 9])));
    assert_eq!(
        properties_of(&tokens, "data-sections"),
        vec![("reg".to_string(), cells(&[1, 2])), ("bootargs".to_string(), cells(&[3, 4]))]
    );
}

#[test]
fn many_sections() {
    let mut sections = Sections::new();
    for i in 0..300u32 {
        sections.insert(format!("s{i}"), i, i * 2);
    }
    let blob = build_with_seed("", &sections, 0, 1, &SEED).unwrap();
    let found = properties_of(&decode(&blob), "data-sections");
    assert_eq!(found.len(), 300);
    for (i, (name, value)) in found.iter().enumerate() {
        assert_eq!(name, &format!("s{i}"));
        assert_eq!(value, &cells(&[i as u32, i as u32 * 2]));
    }
}

#[test]
fn this_machine_is_described() {
    let blob = create_devicetree("no_hash_pointers", &text_section(), 128 << 20).unwrap();
    let tokens = decode(&blob);
    assert_eq!(tokens[3], property("ncpus", cells(&[num_cpus::get() as u32])));
    assert!(num_cpus::get() >= 1);
    assert_eq!(properties_of(&tokens, "memory")[1].1, cells(&[0, 0x0800_0000]));
}

#[test]
fn encoding_errors_have_messages() {
    assert_eq!(EncodingError::InvalidString.message(), "strings cannot contain NUL");
    assert_eq!(EncodingError::InvalidPropertyName.message(), "invalid property name");
    assert_eq!(EncodingError::InvalidNodeName.message(), "invalid node name");
    assert_eq!(
        EncodingError::PropertyValueTooLarge.message(),
        "property value size must fit in 32 bits"
    );
    assert_eq!(EncodingError::TotalSizeTooLarge.message(), "total size must fit in 32 bits");
    assert_eq!(EncodingError::Structure.message(), "devicetree nodes written out of order");
}

#[test]
fn writer_errors_are_named() {
    assert_eq!(
        EncodingError::from_writer(vm_fdt::Error::InvalidString),
        EncodingError::InvalidString
    );
    assert_eq!(
        EncodingError::from_writer(vm_fdt::Error::InvalidPropertyName),
        EncodingError::InvalidPropertyName
    );
    assert_eq!(
        EncodingError::from_writer(vm_fdt::Error::InvalidNodeName),
        EncodingError::InvalidNodeName
    );
    assert_eq!(
        EncodingError::from_writer(vm_fdt::Error::PropertyValueTooLarge),
        EncodingError::PropertyValueTooLarge
    );
    assert_eq!(
        EncodingError::from_writer(vm_fdt::Error::TotalSizeTooLarge),
        EncodingError::TotalSizeTooLarge
    );
    for other in [
        vm_fdt::Error::PropertyBeforeBeginNode,
        vm_fdt::Error::PropertyAfterEndNode,
        vm_fdt::Error::OutOfOrderEndNode,
        vm_fdt::Error::UnclosedNode,
        vm_fdt::Error::NodeDepthTooLarge,
        vm_fdt::Error::DuplicatePhandle,
    ] {
        assert_eq!(EncodingError::from_writer(other), EncodingError::Structure);
    }
}

#[test]
fn blob_takes_at_most_55_bytes_for_a_section() {
    for count in [0usize, 1, 2, 50, 400] {
        for cmdline in ["", "no_hash_pointers", "\u{10348}\u{4e16}\u{e9}x"] {
            let mut sections = Sections::new();
            for i in 0..count {
                sections.insert(format!("{i:031}"), i as u32, u32::MAX);
            }
            assert_eq!(sections.len(), count);
            let blob = build_with_seed(cmdline, &sections, u32::MAX, u32::MAX, &SEED).unwrap();
            assert!(blob.len() <= 1024 + cmdline.len() + 55 * count);
            assert_eq!(properties_of(&decode(&blob), "data-sections").len(), count);
        }
    }
}
