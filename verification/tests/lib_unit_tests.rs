use todo::TodoItem;

#[test]
fn test_new_and_format_lib() {
    let t = TodoItem::new("Buy milk", "2 liters");
    assert_eq!(t.title, "Buy milk");
    assert_eq!(t.description, Some("2 liters".to_string()));
    // Format now produces a concise single-line summary, ensure it contains key parts.
    let out = t.format(true);
    assert!(out.contains("Buy milk"));
    assert!(out.contains("Pending") || out.contains("InProgress") || out.contains("Completed"));
}

#[test]
fn test_format_empty_lib() {
    let t = TodoItem::new("", "");
    assert_eq!(t.description, None);
    let out = t.format(true);
    assert!(out.contains(""));
}
