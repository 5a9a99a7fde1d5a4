use todo_cli::listing::render;
use todo_cli::terminal::{decimal, strikethrough};
use todo_cli::todo::Todo;

#[test]
fn strikethrough_wraps_the_text_in_escape_sequences() {
    assert_eq!(strikethrough("title"), "\u{1b}[9mtitle\u{1b}[0m");
    assert_eq!(strikethrough(""), "\u{1b}[9m\u{1b}[0m");
    assert_eq!(strikethrough("é ✓"), "\u{1b}[9mé ✓\u{1b}[0m");
}

#[test]
fn decimal_writes_numbers_without_leading_zeros() {
    assert_eq!(decimal(0), "0");
    assert_eq!(decimal(9), "9");
    assert_eq!(decimal(10), "10");
    assert_eq!(decimal(120), "120");
    assert_eq!(decimal(1234567890), "1234567890");
    assert_eq!(decimal(usize::MAX), usize::MAX.to_string());
}

#[test]
fn render_numbers_the_lines_and_strikes_done_items() {
    let todos = vec![
        Todo { id: 8, title: "a".to_string(), done: false },
        Todo { id: 3, title: "b: c".to_string(), done: true },
        Todo { id: 5, title: "".to_string(), done: false },
    ];

    assert_eq!(
        render(&todos),
        vec!["0: a".to_string(), "1: \u{1b}[9mb: c\u{1b}[0m".to_string(), "2: ".to_string()]
    );
}

#[test]
fn render_of_an_empty_list_has_no_lines() {
    assert_eq!(render(&Vec::new()), Vec::<String>::new());
}

#[test]
fn render_counts_past_nine() {
    let todos: Vec<Todo> = (0..12).map(|n| Todo::new(format!("t{}", n))).collect();

    let lines = render(&todos);

    assert_eq!(lines.len(), 12);
    assert_eq!(lines[9], "9: t9");
    assert_eq!(lines[10], "10: t10");
    assert_eq!(lines[11], "11: t11");
}
