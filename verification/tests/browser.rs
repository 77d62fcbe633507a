use journal_tui::browser::{
    entry_file_name, entry_heading, is_blank_title, preview_line, preview_of, title_of, Browser,
    Command, Key, Mode, PREVIEW_LINES, PREVIEW_WIDTH,
};

fn lines(items: &[&str]) -> Vec<String> {
    items.iter().map(|item| item.to_string()).collect()
}

#[test]
fn new_list_selects_the_row_for_a_new_note() {
    let browser = Browser::new();
    assert_eq!(browser.selected(), 0);
    assert_eq!(browser.mode(), Mode::Normal);
    assert_eq!(browser.title_input(), "");
}

#[test]
fn selection_moves_within_the_list() {
    let mut browser = Browser::new();
    browser.move_selection_up();
    assert_eq!(browser.selected(), 0);
    browser.move_selection_down(2);
    browser.move_selection_down(2);
    assert_eq!(browser.selected(), 2);
    browser.move_selection_down(2);
    assert_eq!(browser.selected(), 2);
    browser.move_selection_up();
    assert_eq!(browser.selected(), 1);
    browser.move_selection_down(0);
    assert_eq!(browser.selected(), 1);
}

#[test]
fn keys_move_the_selection() {
    let mut browser = Browser::new();
    assert_eq!(browser.on_key(Key::Char('j'), 3), Command::Stay);
    assert_eq!(browser.on_key(Key::Down, 3), Command::Stay);
    assert_eq!(browser.selected(), 2);
    assert_eq!(browser.on_key(Key::Char('k'), 3), Command::Stay);
    assert_eq!(browser.selected(), 1);
    assert_eq!(browser.on_key(Key::Up, 3), Command::Stay);
    assert_eq!(browser.on_key(Key::Up, 3), Command::Stay);
    assert_eq!(browser.selected(), 0);
    assert_eq!(browser.on_key(Key::Char('G'), 3), Command::Stay);
    assert_eq!(browser.selected(), 3);
    assert_eq!(browser.on_key(Key::Char('j'), 3), Command::Stay);
    assert_eq!(browser.selected(), 3);
    assert_eq!(browser.on_key(Key::Char('g'), 3), Command::Stay);
    assert_eq!(browser.selected(), 0);
    assert_eq!(browser.on_key(Key::Char('x'), 3), Command::Stay);
    assert_eq!(browser.on_key(Key::Other, 3), Command::Stay);
    assert_eq!(browser.on_key(Key::Esc, 3), Command::Stay);
    assert_eq!(browser.on_key(Key::Backspace, 3), Command::Stay);
    assert_eq!(browser.selected(), 0);
    assert_eq!(browser.mode(), Mode::Normal);
}

#[test]
fn q_quits() {
    let mut browser = Browser::new();
    assert_eq!(browser.on_key(Key::Char('q'), 3), Command::Quit);
}

#[test]
fn enter_on_a_note_opens_it() {
    let mut browser = Browser::new();
    browser.on_key(Key::Char('G'), 3);
    assert_eq!(browser.on_key(Key::Enter, 3), Command::Open(2));
    browser.on_key(Key::Up, 3);
    browser.on_key(Key::Up, 3);
    assert_eq!(browser.on_key(Key::Enter, 3), Command::Open(0));
    assert_eq!(browser.mode(), Mode::Normal);
}

#[test]
fn enter_below_the_list_opens_nothing() {
    let mut browser = Browser::new();
    browser.on_key(Key::Char('G'), 3);
    assert_eq!(browser.on_key(Key::Enter, 1), Command::Stay);
    assert_eq!(browser.selected(), 3);
}

#[test]
fn enter_on_the_first_row_asks_for_a_title() {
    let mut browser = Browser::new();
    assert_eq!(browser.on_key(Key::Enter, 3), Command::Stay);
    assert_eq!(browser.mode(), Mode::TitleInput);
    for c in "My day".chars() {
        assert_eq!(browser.on_key(Key::Char(c), 3), Command::Stay);
    }
    assert_eq!(browser.title_input(), "My day");
    assert_eq!(browser.on_key(Key::Backspace, 3), Command::Stay);
    assert_eq!(browser.title_input(), "My da");
    assert_eq!(browser.on_key(Key::Char('q'), 3), Command::Stay);
    assert_eq!(browser.title_input(), "My daq");
    assert_eq!(browser.on_key(Key::Up, 3), Command::Stay);
    assert_eq!(browser.selected(), 0);
    assert_eq!(browser.on_key(Key::Enter, 3), Command::Create);
    assert_eq!(browser.mode(), Mode::TitleInput);
    assert_eq!(browser.title_input(), "My daq");
    browser.created();
    assert_eq!(browser.mode(), Mode::Normal);
    assert_eq!(browser.title_input(), "");
}

#[test]
fn blank_title_makes_no_note() {
    let mut browser = Browser::new();
    browser.on_key(Key::Enter, 0);
    assert_eq!(browser.on_key(Key::Enter, 0), Command::Stay);
    browser.on_key(Key::Char(' '), 0);
    browser.on_key(Key::Char('\t'), 0);
    assert_eq!(browser.on_key(Key::Enter, 0), Command::Stay);
    assert_eq!(browser.mode(), Mode::TitleInput);
    assert_eq!(browser.title_input(), " \t");
}

#[test]
fn backspace_on_an_empty_title_changes_nothing() {
    let mut browser = Browser::new();
    browser.on_key(Key::Enter, 0);
    assert_eq!(browser.on_key(Key::Backspace, 0), Command::Stay);
    assert_eq!(browser.title_input(), "");
    assert_eq!(browser.mode(), Mode::TitleInput);
}

#[test]
fn escape_drops_the_title() {
    let mut browser = Browser::new();
    browser.on_key(Key::Enter, 0);
    browser.on_key(Key::Char('x'), 0);
    assert_eq!(browser.on_key(Key::Esc, 0), Command::Stay);
    assert_eq!(browser.mode(), Mode::Normal);
    assert_eq!(browser.title_input(), "");
}

#[test]
fn blank_titles_are_told() {
    assert!(is_blank_title(""));
    assert!(is_blank_title("  \n"));
    assert!(!is_blank_title(" a "));
}

#[test]
fn file_name_has_underscores_for_spaces() {
    assert_eq!(entry_file_name("20240131_093000", "My first day"), "20240131_093000_My_first_day.md");
    assert_eq!(entry_file_name("20240131_093000", "x"), "20240131_093000_x.md");
    assert_eq!(entry_file_name("", ""), "_.md");
    assert_eq!(entry_file_name("t", " a\tb "), "t__a\tb_.md");
}

#[test]
fn heading_is_the_title_and_an_empty_line() {
    assert_eq!(entry_heading("My day"), "# My day\n\n");
    assert_eq!(entry_heading(""), "# \n\n");
}

#[test]
fn title_is_the_first_heading() {
    assert_eq!(title_of(&lines(&["# My day", "", "text"])), Some("My day".to_string()));
    assert_eq!(title_of(&lines(&["intro", "## no", "#no", "# Yes", "# Later"])), Some("Yes".to_string()));
    assert_eq!(title_of(&lines(&["# "])), Some("".to_string()));
    assert_eq!(title_of(&lines(&["# 日記"])), Some("日記".to_string()));
}

#[test]
fn note_without_heading_has_no_title() {
    assert_eq!(title_of(&lines(&[])), None);
    assert_eq!(title_of(&lines(&["#", " # x", "text"])), None);
}

#[test]
fn long_lines_are_cut_in_the_preview() {
    assert_eq!(PREVIEW_WIDTH, 60);
    let sixty = "a".repeat(60);
    assert_eq!(preview_line(&sixty), sixty);
    let longer = "b".repeat(61);
    assert_eq!(preview_line(&longer), format!("{}...", "b".repeat(57)));
    assert_eq!(preview_line(""), "");
}

#[test]
fn preview_skips_the_heading_and_shows_twenty_lines() {
    assert_eq!(PREVIEW_LINES, 20);
    assert_eq!(preview_of(&lines(&[])), Vec::<String>::new());
    assert_eq!(preview_of(&lines(&["# t", ""])), Vec::<String>::new());
    assert_eq!(preview_of(&lines(&["# t", "", "one", "two"])), lines(&["one", "two"]));
    let many: Vec<String> = (0..30).map(|i| format!("line {}", i)).collect();
    let shown = preview_of(&many);
    assert_eq!(shown.len(), 20);
    assert_eq!(shown[0], "line 2");
    assert_eq!(shown[19], "line 21");
}
