use todo::clock::{EARLIEST_TIMESTAMP, LATEST_TIMESTAMP};
use todo::render::{banner_title, form_prompt, format_status};
use todo::text::{decimal, join, right_align};
use todo::{Priority, Status, TodoItem};

const DEC_25_2025: i64 = 1766620800;

fn item(title: &str) -> TodoItem {
    TodoItem::with_identity("id-1".to_string(), 0, title, "")
}

#[test]
fn status_labels_are_coloured_names() {
    assert_eq!(format_status(&Status::Pending, true), "\x1b[33mPending\x1b[39m");
    assert_eq!(format_status(&Status::InProgress, true), "\x1b[36mInProgress\x1b[39m");
    assert_eq!(format_status(&Status::Completed, true), "\x1b[32mCompleted\x1b[39m");
}

#[test]
fn priority_labels_are_coloured_short_names() {
    assert_eq!(Priority::Low.colored_label(true), "\x1b[2mLow\x1b[0m");
    assert_eq!(Priority::Medium.colored_label(true), "\x1b[97mMed\x1b[39m");
    assert_eq!(Priority::High.colored_label(true), "\x1b[1m\x1b[31mHigh\x1b[39m\x1b[0m");
}

#[test]
fn summary_of_a_plain_item() {
    let t = item("Buy milk");
    assert_eq!(
        t.format(true),
        "\x1b[97m\x1b[1mBuy milk\x1b[0m\x1b[39m [\x1b[33mPending\x1b[39m]"
    );
}

#[test]
fn summary_of_a_full_item() {
    let mut t = item("Buy groceries");
    t.status = Status::Completed;
    t.priority = Some(Priority::Medium);
    t.due_date = Some(DEC_25_2025);
    t.tags = vec!["shopping".to_string(), "urgent".to_string()];
    assert_eq!(
        t.format(true),
        "\x1b[97m\x1b[1mBuy groceries\x1b[0m\x1b[39m [\x1b[32mCompleted\x1b[39m] \
         (\x1b[97mMed\x1b[39m) due:2025-12-25 tags:shopping,urgent"
    );
}

#[test]
fn summary_with_a_given_date_text() {
    let t = item("T");
    assert_eq!(
        t.summary_with_date(Some("someday"), true),
        "\x1b[97m\x1b[1mT\x1b[0m\x1b[39m [\x1b[33mPending\x1b[39m] due:someday"
    );
}

#[test]
fn summary_shows_title_after_nine_chars() {
    let t = item("Read a book");
    let out: Vec<char> = t.format(true).chars().collect();
    let title: String = out[9..9 + 11].iter().collect();
    assert_eq!(title, "Read a book");
}

#[test]
fn summary_names_every_status() {
    for s in [Status::Pending, Status::InProgress, Status::Completed] {
        let mut t = item("x");
        t.status = s;
        let word = match s {
            Status::Pending => "Pending",
            Status::InProgress => "InProgress",
            Status::Completed => "Completed",
        };
        assert!(t.format(true).contains(word));
    }
}

#[test]
fn dates_at_the_ends_of_the_range_format() {
    let mut t = item("x");
    t.due_date = Some(EARLIEST_TIMESTAMP);
    let early = t.due_prompt().unwrap();
    assert!(early.ends_with("-01-01"));
    t.due_date = Some(LATEST_TIMESTAMP);
    let late = t.due_prompt().unwrap();
    assert!(late.ends_with("-12-31"));
    assert!(late.contains("262142"));
}

#[test]
fn listing_lines() {
    let mut t = item("Walk");
    assert_eq!(
        t.list_line(3, true),
        "  3. \x1b[97m\x1b[97m\x1b[1mWalk\x1b[0m\x1b[39m [\x1b[33mPending\x1b[39m]\x1b[39m"
    );
    assert!(t.list_line(1234, true).starts_with("1234. "));
    assert_eq!(t.description_line(true), None);
    t.description = Some(String::new());
    assert_eq!(t.description_line(true), None);
    t.description = Some("two liters".to_string());
    assert_eq!(t.description_line(true), Some("      \x1b[2mtwo liters\x1b[0m".to_string()));
}

#[test]
fn decimal_and_alignment() {
    assert_eq!(decimal(0), "0");
    assert_eq!(decimal(7), "7");
    assert_eq!(decimal(1090), "1090");
    assert_eq!(decimal(usize::MAX), usize::MAX.to_string());
    assert_eq!(right_align("7", 3), "  7");
    assert_eq!(right_align("1234", 3), "1234");
    assert_eq!(right_align("", 2), "  ");
}

#[test]
fn joining_texts() {
    let v = vec!["a".to_string(), "".to_string(), "c".to_string()];
    assert_eq!(join(&v, ","), "a,,c");
    assert_eq!(join(&Vec::new(), ","), "");
    assert_eq!(join(&vec!["only".to_string()], ", "), "only");
}

#[test]
fn prompt_defaults() {
    assert_eq!(Priority::Low.prompt_name(), "low");
    assert_eq!(Priority::Medium.prompt_name(), "med");
    assert_eq!(Priority::High.prompt_name(), "high");
    let mut t = item("x");
    assert_eq!(t.due_prompt(), None);
    assert_eq!(t.tags_prompt(), None);
    t.due_date = Some(DEC_25_2025);
    t.tags = vec!["a".to_string(), "b".to_string()];
    assert_eq!(t.due_prompt(), Some("2025-12-25".to_string()));
    assert_eq!(t.tags_prompt(), Some("a,b".to_string()));
}

#[test]
fn banner() {
    assert_eq!(
        banner_title(3, "t.json", true),
        "\x1b[94m\x1b[1m TodoRust \u{2014} 3 todos (file: t.json) \x1b[0m\x1b[39m"
    );
}

#[test]
fn plain_rendering_when_colours_are_off() {
    assert_eq!(format_status(&Status::Pending, false), "Pending");
    assert_eq!(format_status(&Status::InProgress, false), "InProgress");
    assert_eq!(format_status(&Status::Completed, false), "Completed");
    assert_eq!(Priority::Low.colored_label(false), "Low");
    assert_eq!(Priority::Medium.colored_label(false), "Med");
    assert_eq!(Priority::High.colored_label(false), "High");
    let mut t = item("Buy groceries");
    assert_eq!(t.format(false), "Buy groceries [Pending]");
    t.priority = Some(Priority::High);
    t.due_date = Some(DEC_25_2025);
    t.tags = vec!["shopping".to_string(), "urgent".to_string()];
    t.description = Some("Milk".to_string());
    let out = t.format(false);
    assert_eq!(out, "Buy groceries [Pending] (High) due:2025-12-25 tags:shopping,urgent");
    assert!(!out.contains('\u{1b}'));
    assert_eq!(
        t.list_line(1, false),
        "  1. Buy groceries [Pending] (High) due:2025-12-25 tags:shopping,urgent"
    );
    assert_eq!(t.description_line(false), Some("      Milk".to_string()));
    assert_eq!(banner_title(0, "x.json", false), " TodoRust \u{2014} 0 todos (file: x.json) ");
}

#[test]
fn status_labels_differ() {
    for colors in [true, false] {
        let labels: Vec<String> = [Status::Pending, Status::InProgress, Status::Completed]
            .iter()
            .map(|s| format_status(s, colors))
            .collect();
        assert_ne!(labels[0], labels[1]);
        assert_ne!(labels[0], labels[2]);
        assert_ne!(labels[1], labels[2]);
    }
}

#[test]
fn prompts() {
    assert_eq!(form_prompt("Title (required)", false, None, false), "Title (required): ");
    assert_eq!(
        form_prompt("Title (required)", false, Some("Buy groceries"), false),
        "Title (required) [Buy groceries]: "
    );
    assert_eq!(
        form_prompt("Priority (low/med/high)", true, None, false),
        "Priority (low/med/high) [blank for none]: "
    );
    assert_eq!(
        form_prompt("Priority (low/med/high)", true, Some("med"), false),
        "Priority (low/med/high) [med]: "
    );
    assert_eq!(
        form_prompt("Description", false, Some(""), false),
        "Description: "
    );
    assert_eq!(
        form_prompt("Due", true, Some("2025-12-25"), true),
        "\x1b[1m\x1b[36mDue\x1b[39m\x1b[0m [\x1b[2m2025-12-25\x1b[0m]: "
    );
    assert_eq!(form_prompt("Command", false, None, true), "\x1b[1m\x1b[36mCommand\x1b[39m\x1b[0m: ");
}
