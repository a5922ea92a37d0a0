use md_session::identity::DocumentIdentity;
use md_session::keys::{key_action, KeyAction, KEY_F11, KEY_S};
use md_session::preview::{render, wrap_page, PAGE_HEAD, PAGE_TAIL};
use md_session::session::{header_text, SharedSession};

#[test]
fn empty_session_has_nothing_to_decide() {
    let session = SharedSession::new();
    assert!(session.read().is_none());
    assert_eq!(session.dialog_dir(), None);
    assert_eq!(session.save_enabled_after_edit(b"anything"), None);
}

#[test]
fn opening_a_file_sets_identity_and_header() {
    let mut session = SharedSession::new();
    let header = session.open_document("/home/u/notes/todo.md".to_string(), b"- a");
    assert_eq!(header.title, Some("todo.md".to_string()));
    assert_eq!(header.subtitle, Some("/home/u/notes".to_string()));
    assert_eq!(session.dialog_dir(), Some("/home/u/notes".to_string()));
    assert_eq!(session.save_enabled_after_edit(b"- a"), Some(false));
    assert_eq!(session.save_enabled_after_edit(b"- b"), Some(true));
}

#[test]
fn write_replaces_and_clears_the_slot() {
    let mut session = SharedSession::new();
    session.write(Some(DocumentIdentity::new("/a/b.md".to_string(), b"x")));
    assert_eq!(session.read().unwrap().get_path(), "/a/b.md");
    assert!(session.refresh_sum(b"y"));
    assert!(session.read().unwrap().is_same_as(b"y"));
    session.write(None);
    assert!(session.read().is_none());
    assert!(!session.refresh_sum(b"z"));
}

#[test]
fn header_of_a_root_path() {
    let id = DocumentIdentity::new("/".to_string(), b"");
    let header = header_text(&id);
    assert_eq!(header.title, None);
    assert_eq!(header.subtitle, None);
}

#[test]
fn keys_toggle_fullscreen_and_save() {
    assert_eq!(key_action(KEY_F11, false, false), KeyAction::SetFullscreen(true));
    assert_eq!(key_action(KEY_F11, true, true), KeyAction::SetFullscreen(false));
    assert_eq!(key_action(KEY_S, true, false), KeyAction::Save);
    assert_eq!(key_action(KEY_S, false, false), KeyAction::Ignore);
    assert_eq!(key_action('a' as u32, true, false), KeyAction::Ignore);
    assert_eq!(KEY_S, 's' as u32);
}

#[test]
fn wrap_page_surrounds_body() {
    let page = wrap_page("<p>x</p>");
    assert!(page.starts_with("<!DOCTYPE html><html><head>"));
    assert!(page.ends_with("<body><p>x</p></body></html>"));
    assert_eq!(page, format!("{}<p>x</p>{}", PAGE_HEAD, PAGE_TAIL));
}

#[test]
fn render_heading() {
    let page = render("# Hi");
    assert_eq!(page, format!("{}<h1>Hi</h1>\n{}", PAGE_HEAD, PAGE_TAIL));
}

#[test]
fn render_empty_text() {
    assert_eq!(render(""), format!("{}{}", PAGE_HEAD, PAGE_TAIL));
}

#[test]
fn page_head_carries_style_and_highlighting() {
    assert!(PAGE_HEAD.contains("<style>body { width: 80%; margin: 0 auto }</style>"));
    assert!(PAGE_HEAD.contains("<script>hljs.initHighlightingOnLoad()</script>"));
    assert!(PAGE_HEAD.ends_with("</head><body>"));
}
