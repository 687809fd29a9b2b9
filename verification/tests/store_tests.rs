use todo::store::{should_migrate, temp_file_name};
use todo::{Status, TodoItem, TodoList};

fn item(title: &str) -> TodoItem {
    TodoItem::with_identity(format!("id-{}", title), 10, title, "")
}

#[test]
fn new_items_have_uuid_ids() {
    let a = TodoItem::new("a", "");
    let b = TodoItem::new("b", "");
    for id in [&a.id, &b.id] {
        let cs: Vec<char> = id.chars().collect();
        assert_eq!(cs.len(), 36);
        for i in [8, 13, 18, 23] {
            assert_eq!(cs[i], '-');
        }
        assert_eq!(cs[14], '4');
        assert!("89ab".contains(cs[19]));
        assert!(cs.iter().all(|c| *c == '-' || c.is_ascii_digit() || ('a'..='f').contains(c)));
    }
    assert_ne!(a.id, b.id);
}

#[test]
fn positions_and_removal() {
    let mut list = TodoList::default();
    list.add(item("one"));
    list.add(item("two"));
    list.add(item("three"));
    assert_eq!(list.index_of_position(0), None);
    assert_eq!(list.index_of_position(1), Some(0));
    assert_eq!(list.index_of_position(3), Some(2));
    assert_eq!(list.index_of_position(4), None);
    assert!(list.remove_position(0).is_none());
    assert!(list.remove_position(4).is_none());
    assert_eq!(list.items.len(), 3);
    let removed = list.remove_position(2).unwrap();
    assert_eq!(removed.title, "two");
    let titles: Vec<&str> = list.items.iter().map(|t| t.title.as_str()).collect();
    assert_eq!(titles, vec!["one", "three"]);
}

#[test]
fn removing_the_last_undoes_an_add() {
    let mut list = TodoList::default();
    list.add(item("keep"));
    let n = list.items.len();
    list.add(item("extra"));
    let back = list.remove_position(n + 1).unwrap();
    assert_eq!(back.title, "extra");
    assert_eq!(list.items.len(), 1);
    assert_eq!(list.items[0].title, "keep");
}

#[test]
fn status_changes() {
    let mut list = TodoList::default();
    list.add(item("one"));
    list.add(item("two"));
    list.set_status_at(1, Status::Completed, 999);
    assert_eq!(list.items[1].status, Status::Completed);
    assert_eq!(list.items[1].updated_at, Some(999));
    assert_eq!(list.items[0].status, Status::Pending);
    assert_eq!(list.items[0].updated_at, None);
    list.replace_at(0, item("zero"));
    assert_eq!(list.items[0].title, "zero");
}

#[test]
fn temp_names() {
    assert_eq!(temp_file_name("todos.json"), ".todos.json.tmp");
    assert_eq!(temp_file_name(""), "..tmp");
    assert_ne!(temp_file_name("a"), "a");
}

#[test]
fn failed_loads_give_an_empty_list() {
    assert_eq!(TodoList::or_empty(None).items.len(), 0);
    let mut l = TodoList::default();
    l.add(item("x"));
    assert_eq!(TodoList::or_empty(Some(l)).items.len(), 1);
}

#[test]
fn migration_rule() {
    assert!(should_migrate(true, false));
    assert!(!should_migrate(true, true));
    assert!(!should_migrate(false, false));
    assert!(!should_migrate(false, true));
}

#[test]
fn new_items_are_created_now() {
    let before = chrono::Utc::now().timestamp();
    let t = TodoItem::new("now", "");
    let after = chrono::Utc::now().timestamp();
    assert!(before <= t.created_at && t.created_at <= after);
    assert_eq!(t.updated_at, None);
    assert_eq!(t.due_date, None);
}

#[test]
fn defaults() {
    assert_eq!(Status::default(), Status::Pending);
    assert_eq!(todo::Priority::default(), todo::Priority::Medium);
    assert!(TodoList::default().items.is_empty());
}
