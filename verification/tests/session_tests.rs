use todo::session::{
    colors_enabled, parse_index_reply, parse_status_choice, select_todo_file, Command, IndexReply,
};
use todo::text::decimal;
use todo::Status;

fn strings(v: &[&str]) -> Vec<String> {
    v.iter().map(|s| s.to_string()).collect()
}

#[test]
fn commands_by_name_and_letter() {
    assert_eq!(Command::parse("l"), Command::List);
    assert_eq!(Command::parse("  LIST "), Command::List);
    assert_eq!(Command::parse("a"), Command::Add);
    assert_eq!(Command::parse("Add"), Command::Add);
    assert_eq!(Command::parse("r"), Command::Remove);
    assert_eq!(Command::parse("remove"), Command::Remove);
    assert_eq!(Command::parse("e"), Command::Edit);
    assert_eq!(Command::parse("EDIT"), Command::Edit);
    assert_eq!(Command::parse("s"), Command::ChangeStatus);
    assert_eq!(Command::parse("status"), Command::ChangeStatus);
    assert_eq!(Command::parse("q"), Command::Quit);
    assert_eq!(Command::parse("Quit"), Command::Quit);
}

#[test]
fn blank_and_unknown_commands() {
    assert_eq!(Command::parse(""), Command::Blank);
    assert_eq!(Command::parse(" \t "), Command::Blank);
    assert_eq!(Command::parse("lis"), Command::Unknown);
    assert_eq!(Command::parse("x"), Command::Unknown);
    assert_eq!(Command::from_word("L"), Command::Unknown);
    assert_eq!(Command::from_word("l"), Command::List);
}

#[test]
fn status_menu_choices() {
    assert_eq!(parse_status_choice("1"), Some(Status::Pending));
    assert_eq!(parse_status_choice(" 2 "), Some(Status::InProgress));
    assert_eq!(parse_status_choice("3"), Some(Status::Completed));
    assert_eq!(parse_status_choice("4"), None);
    assert_eq!(parse_status_choice(""), None);
}

#[test]
fn index_replies() {
    assert_eq!(parse_index_reply(""), IndexReply::Missing);
    assert_eq!(parse_index_reply("3"), IndexReply::Number(3));
    assert_eq!(parse_index_reply("+7"), IndexReply::Number(7));
    assert_eq!(parse_index_reply("0"), IndexReply::Number(0));
    assert_eq!(parse_index_reply("-1"), IndexReply::Invalid);
    assert_eq!(parse_index_reply("abc"), IndexReply::Invalid);
    assert_eq!(parse_index_reply("+"), IndexReply::Invalid);
    assert_eq!(parse_index_reply("99999999999999999999999"), IndexReply::Invalid);
}

#[test]
fn listed_positions_read_back() {
    for n in [1usize, 9, 10, 42, 1000, usize::MAX] {
        assert_eq!(parse_index_reply(&decimal(n)), IndexReply::Number(n));
    }
}

#[test]
fn colour_flags() {
    assert!(colors_enabled(&strings(&[]), true));
    assert!(!colors_enabled(&strings(&[]), false));
    assert!(colors_enabled(&strings(&["--color"]), false));
    assert!(!colors_enabled(&strings(&["--no-color"]), true));
    assert!(!colors_enabled(&strings(&["--color", "x.json", "--no-color"]), true));
    assert!(colors_enabled(&strings(&["--no-color", "--color"]), false));
}

#[test]
fn todo_file_selection() {
    let default = "/home/u/todos.json".to_string();
    assert_eq!(
        select_todo_file(&strings(&["--no-color", "my.json"]), Some("env.json".to_string()), default.clone()),
        ("my.json".to_string(), true)
    );
    assert_eq!(
        select_todo_file(&strings(&["--color"]), Some("env.json".to_string()), default.clone()),
        ("env.json".to_string(), true)
    );
    assert_eq!(
        select_todo_file(&strings(&[]), None, default.clone()),
        (default.clone(), false)
    );
    assert_eq!(
        select_todo_file(&strings(&["a.json", "b.json"]), None, default.clone()),
        ("a.json".to_string(), true)
    );
}
