use witer::compat::egui::clipboard::Clipboard;

#[test]
fn clipboard_starts_empty() {
    let mut clipboard = Clipboard::new(None);
    assert_eq!(clipboard.get(), Some(String::new()));
}

#[test]
fn clipboard_gives_back_what_was_set() {
    let mut clipboard = Clipboard::new(None);
    clipboard.set("hello".to_string());
    assert_eq!(clipboard.get(), Some("hello".to_string()));
    // reading leaves the text in place
    assert_eq!(clipboard.get(), Some("hello".to_string()));
    clipboard.set("world".to_string());
    assert_eq!(clipboard.get(), Some("world".to_string()));
}
