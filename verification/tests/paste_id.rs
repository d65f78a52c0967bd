use pastebin::paste_id::PasteId;
use pastebin::paste_id::ID_LENGTH;

fn is_alnum(s: &str) -> bool {
    s.chars().all(|c| c.is_ascii_alphanumeric())
}

#[test]
fn generate_has_requested_length_and_alphabet() {
    for len in [1usize, 2, 8, 12, 30, 64] {
        let id = PasteId::new(len);
        assert_eq!(id.as_str().len(), len);
        assert!(is_alnum(id.as_str()));
    }
}

#[test]
fn generate_default_length() {
    let id = PasteId::new(ID_LENGTH);
    assert_eq!(id.as_str().len(), 12);
}

#[test]
fn generate_repeated_calls_are_distinct() {
    let a = PasteId::new(12);
    let b = PasteId::new(12);
    assert_ne!(a.as_str(), b.as_str());
    let c = PasteId::new(8);
    let d = PasteId::new(8);
    assert_ne!(c.as_str(), d.as_str());
}

#[test]
fn generate_uses_more_than_one_symbol() {
    // A generator that repeated a single symbol would fail this with
    // overwhelming probability.
    let id = PasteId::new(64);
    let first = id.as_str().chars().next().unwrap();
    assert!(id.as_str().chars().any(|c| c != first));
}

#[test]
fn parse_accepts_alphanumeric() {
    let id = PasteId::parse("Ab3D9").expect("valid identifier");
    assert_eq!(id.as_str(), "Ab3D9");
}

#[test]
fn parse_accepts_generated_ids() {
    let generated = PasteId::new(12);
    let parsed = PasteId::parse(generated.as_str()).expect("generated ids are valid");
    assert_eq!(parsed.as_str(), generated.as_str());
}

#[test]
fn parse_rejects_separator() {
    match PasteId::parse("ab/3") {
        Ok(_) => panic!("accepted a separator"),
        Err(original) => assert_eq!(original, "ab/3"),
    }
}

#[test]
fn parse_rejects_empty() {
    assert!(PasteId::parse("").is_err());
}

#[test]
fn parse_rejects_non_ascii() {
    match PasteId::parse("héllo") {
        Ok(_) => panic!("accepted a non-ASCII character"),
        Err(original) => assert_eq!(original, "héllo"),
    }
}

#[test]
fn parse_rejects_whitespace_and_traversal() {
    assert!(PasteId::parse("a b").is_err());
    assert!(PasteId::parse("..").is_err());
    assert!(PasteId::parse("a\nb").is_err());
}

#[test]
fn file_path_is_under_upload_directory() {
    let id = PasteId::parse("abc123").expect("valid identifier");
    assert_eq!(id.file_path(), "upload/abc123");
}
