use md_session::identity::DocumentIdentity;

#[test]
fn new_identity_is_same_as_its_content() {
    let id = DocumentIdentity::new("/tmp/doc.md".to_string(), b"# Hi");
    assert!(id.is_same_as(b"# Hi"));
    assert!(!id.is_same_as(b"# Hi 2"));
}

#[test]
fn new_identity_of_empty_content() {
    let id = DocumentIdentity::new("/tmp/empty.md".to_string(), b"");
    assert!(id.is_same_as(b""));
    assert!(!id.is_same_as(b" "));
}

#[test]
fn set_sum_switches_recognised_content() {
    let mut id = DocumentIdentity::new("/tmp/doc.md".to_string(), b"first");
    id.set_sum(b"second");
    assert!(id.is_same_as(b"second"));
    assert!(!id.is_same_as(b"first"));
    assert_eq!(id.get_path(), "/tmp/doc.md");
}

#[test]
fn fingerprint_is_keccak512() {
    let id = DocumentIdentity::new("/tmp/doc.md".to_string(), b"# Hi");
    assert!(id.matches_sum(&tiny_keccak::keccak512(b"# Hi")));
    assert!(!id.matches_sum(&tiny_keccak::keccak512(b"# Hi 2")));
    assert!(!id.matches_sum(&[0u8; 64]));
}

#[test]
fn get_path_is_verbatim() {
    let id = DocumentIdentity::new("/home/user/notes/a b.md".to_string(), b"x");
    assert_eq!(id.get_path(), "/home/user/notes/a b.md");
}

#[test]
fn get_dir_is_parent_directory() {
    let id = DocumentIdentity::new("/tmp/doc.md".to_string(), b"x");
    assert_eq!(id.get_dir(), Some("/tmp".to_string()));
    let root = DocumentIdentity::new("/".to_string(), b"x");
    assert_eq!(root.get_dir(), None);
    let bare = DocumentIdentity::new("doc.md".to_string(), b"x");
    assert_eq!(bare.get_dir(), Some("".to_string()));
}
