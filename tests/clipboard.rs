use deskd::clipboard::ClipboardClient;

#[test]
fn test_clipboard_client() {
    let mut client = ClipboardClient::new(10);
    client.add_to_history("test".to_string(), "text/plain".to_string(), 0);
    assert_eq!(client.history().len(), 1);
}

#[test]
fn test_clipboard_history_limit() {
    let mut client = ClipboardClient::new(3);
    client.add_to_history("1".to_string(), "text/plain".to_string(), 1);
    client.add_to_history("2".to_string(), "text/plain".to_string(), 2);
    client.add_to_history("3".to_string(), "text/plain".to_string(), 3);
    client.add_to_history("4".to_string(), "text/plain".to_string(), 4);
    assert_eq!(client.history().len(), 3);
    assert_eq!(client.history()[0].text, "4");
}

#[test]
fn clipboard_history_newest_first() {
    let mut client = ClipboardClient::new(3);
    for t in ["1", "2", "3", "4"] {
        client.add_to_history(t.to_string(), "text/plain".to_string(), 0);
    }
    let texts: Vec<&str> = client.history().iter().map(|e| e.text.as_str()).collect();
    assert_eq!(texts, vec!["4", "3", "2"]);
    let recent: Vec<String> = client.recent(2).into_iter().map(|e| e.text).collect();
    assert_eq!(recent, vec!["4".to_string(), "3".to_string()]);
    client.clear_history();
    assert!(client.history().is_empty());
}

#[test]
fn clipboard_zero_bound_keeps_nothing() {
    let mut client = ClipboardClient::new(0);
    client.add_to_history("x".to_string(), "text/plain".to_string(), 5);
    assert!(client.history().is_empty());
}
