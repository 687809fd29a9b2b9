use todo::form::{
    due_from_parse, priority_from_word, resolve_description, resolve_due, resolve_priority,
    resolve_tags, resolve_title,
};
use todo::text::parse_tags;
use todo::{Priority, Status, TodoItem};

const DEC_25_2025: i64 = 1766620800;

fn existing() -> TodoItem {
    let mut t = TodoItem::with_identity("old-id".to_string(), 100, "Old title", "Old desc");
    t.priority = Some(Priority::Low);
    t.due_date = Some(5000);
    t.tags = vec!["home".to_string()];
    t.status = Status::InProgress;
    t
}

#[test]
fn titles() {
    let e = existing();
    assert_eq!(resolve_title("New", Some(&e)), Some("New".to_string()));
    assert_eq!(resolve_title("", Some(&e)), Some("Old title".to_string()));
    assert_eq!(resolve_title("", None), None);
    let untitled = TodoItem::with_identity("i".to_string(), 0, "", "");
    assert_eq!(resolve_title("", Some(&untitled)), None);
}

#[test]
fn descriptions() {
    let e = existing();
    assert_eq!(resolve_description("", Some(&e)), Some("Old desc".to_string()));
    assert_eq!(resolve_description("Fresh", Some(&e)), Some("Fresh".to_string()));
    assert_eq!(resolve_description("", None), None);
}

#[test]
fn priorities() {
    let e = existing();
    assert_eq!(resolve_priority("", Some(&e)), Some(Priority::Low));
    assert_eq!(resolve_priority("", None), None);
    assert_eq!(resolve_priority("HIGH", None), Some(Priority::High));
    assert_eq!(resolve_priority("Low", Some(&e)), Some(Priority::Low));
    assert_eq!(resolve_priority("med", None), Some(Priority::Medium));
    assert_eq!(resolve_priority("urgent", None), Some(Priority::Medium));
    assert_eq!(priority_from_word("high"), Priority::High);
    assert_eq!(priority_from_word("High"), Priority::Medium);
}

#[test]
fn due_dates() {
    let e = existing();
    let c = resolve_due("2025-12-25", None);
    assert_eq!(c.due, Some(DEC_25_2025));
    assert!(!c.rejected);
    let c = resolve_due("", Some(&e));
    assert_eq!(c.due, Some(5000));
    assert!(!c.rejected);
    let c = resolve_due("tomorrow", Some(&e));
    assert_eq!(c.due, Some(5000));
    assert!(c.rejected);
    let c = resolve_due("2025-02-30", None);
    assert_eq!(c.due, None);
    assert!(c.rejected);
    let c = due_from_parse(Some(7), Some(&e));
    assert_eq!(c.due, Some(7));
    assert!(!c.rejected);
}

#[test]
fn tag_lists() {
    assert_eq!(parse_tags("a, b ,c"), vec!["a", "b", "c"]);
    assert_eq!(parse_tags(" , ,"), Vec::<String>::new());
    assert_eq!(parse_tags("solo"), vec!["solo"]);
    assert_eq!(parse_tags(",x,,y,"), vec!["x", "y"]);
    let e = existing();
    assert_eq!(resolve_tags("", Some(&e)), vec!["home"]);
    assert_eq!(resolve_tags("", None), Vec::<String>::new());
    assert_eq!(resolve_tags("work, urgent", Some(&e)), vec!["work", "urgent"]);
}

#[test]
fn tags_are_clean() {
    for t in parse_tags("  spaced out , \t tab\t,,\u{a0}nbsp\u{a0}") {
        assert!(!t.is_empty());
        assert_eq!(t.trim(), t);
    }
}

#[test]
fn editing_keeps_identity() {
    let e = existing();
    let edited = TodoItem::edited(
        &e,
        "T".to_string(),
        None,
        Some(Priority::High),
        None,
        vec![],
        777,
    );
    assert_eq!(edited.id, "old-id");
    assert_eq!(edited.created_at, 100);
    assert_eq!(edited.updated_at, Some(777));
    assert_eq!(edited.status, Status::InProgress);

    let finished = TodoItem::finish_edit(&e, edited, 888);
    assert_eq!(finished.id, "old-id");
    assert_eq!(finished.created_at, 100);
    assert_eq!(finished.updated_at, Some(888));
    assert_eq!(finished.priority, Some(Priority::High));
    assert_eq!(finished.tags, vec!["home"]);
    assert_eq!(finished.title, "T");
}

#[test]
fn finishing_an_edit_keeps_old_priority_when_none() {
    let e = existing();
    let draft = TodoItem::with_identity("other".to_string(), 1, "D", "");
    let finished = TodoItem::finish_edit(&e, draft, 9);
    assert_eq!(finished.priority, Some(Priority::Low));
    assert_eq!(finished.id, "old-id");
}

#[test]
fn drafting_a_new_item() {
    let d = TodoItem::drafted(
        "Buy groceries",
        Some("Milk".to_string()),
        Some(Priority::Medium),
        Some(DEC_25_2025),
        vec!["shopping".to_string()],
    );
    assert_eq!(d.title, "Buy groceries");
    assert_eq!(d.description, Some("Milk".to_string()));
    assert_eq!(d.status, Status::Pending);
    assert_eq!(d.due_date, Some(DEC_25_2025));
    assert_eq!(d.id.len(), 36);
    let empty = TodoItem::drafted("x", Some(String::new()), None, None, vec![]);
    assert_eq!(empty.description, None);
}
