use hgtui::mode::SearchMode;
use hgtui::project::Project;
use hgtui::widget::projectdetail::{category_or_other, ProjectDetailState};
use hgtui::widget::statusline::{clamp_to_issue, number_after_sigil};
use hgtui::widget::{ContentState, InputState, PopupState, StatusLineState};
use hgtui::category::Category;
use hgtui::events::Message;

fn project(name: &str) -> Project {
    Project::new(name, "第 1 期", "Rust 项目", "https://example.org", "d", "s", "w", "f")
}

fn projects(n: usize) -> Vec<Project> {
    (0..n).map(|i| project(&format!("item{}", i))).collect()
}

#[test]
fn input_starts_empty_and_active() {
    let input = InputState::default();
    assert!(input.is_empty());
    assert!(input.active);
    assert_eq!(input.mode, SearchMode::Normal);
    assert_eq!(input.width(), 0);
}

#[test]
fn input_first_char_selects_the_mode() {
    let mut input = InputState::default();
    assert_eq!(input.handle_char('#'), SearchMode::Volume);
    assert_eq!(input.handle_char('$'), SearchMode::Volume);
    assert_eq!(input.handle_char('7'), SearchMode::Volume);
    assert_eq!(input.input, "#$7");
    let mut input = InputState::default();
    assert_eq!(input.handle_char('$'), SearchMode::Category);
    assert_eq!(input.handle_char('#'), SearchMode::Category);
    let mut input = InputState::default();
    assert_eq!(input.handle_char('r'), SearchMode::Normal);
    assert_eq!(input.mode, SearchMode::Normal);
}

#[test]
fn input_backspace_and_clear() {
    let mut input = InputState::default();
    input.handle_backspace();
    assert!(input.is_empty());
    input.handle_char('#');
    input.handle_char('图');
    input.handle_char('1');
    input.handle_backspace();
    assert_eq!(input.input, "#图");
    input.handle_backspace();
    assert_eq!(input.input, "#");
    assert!(!input.is_empty());
    input.handle_char('9');
    assert_eq!(input.clear(), "#9");
    assert!(input.is_empty());
    // the mode stays after a clear, until the next first character
    assert_eq!(input.mode, SearchMode::Volume);
    assert_eq!(input.handle_char('x'), SearchMode::Normal);
}

#[test]
fn input_focus() {
    let mut input = InputState::default();
    input.deactive();
    assert!(!input.active);
    input.active();
    assert!(input.active);
}

#[test]
fn input_width_counts_columns() {
    let mut input = InputState::default();
    for c in "ab图解".chars() {
        input.handle_char(c);
    }
    assert_eq!(input.width(), 6);
}

#[test]
fn content_starts_without_cursor() {
    let content = ContentState::default();
    assert_eq!(content.selected(), None);
    assert!(content.rows().is_empty());
    assert!(!content.is_active());
    assert!(content.selected_project().is_none());
}

#[test]
fn content_add_projects_resets_the_cursor() {
    let mut content = ContentState::default();
    content.add_projects(projects(3));
    assert_eq!(content.selected(), Some(0));
    assert_eq!(content.rows().len(), 3);
    content.last();
    assert_eq!(content.selected(), Some(2));
    content.add_projects(projects(2));
    assert_eq!(content.selected(), Some(0));
    content.add_projects(Vec::new());
    assert_eq!(content.selected(), None);
}

#[test]
fn content_cursor_moves_within_the_table() {
    let mut content = ContentState::default();
    content.add_projects(projects(8));
    content.next(1);
    assert_eq!(content.selected(), Some(1));
    content.next(5);
    assert_eq!(content.selected(), Some(6));
    content.next(5);
    assert_eq!(content.selected(), Some(7));
    content.next(usize::MAX);
    assert_eq!(content.selected(), Some(7));
    content.prev(1);
    assert_eq!(content.selected(), Some(6));
    content.prev(5);
    assert_eq!(content.selected(), Some(1));
    content.prev(5);
    assert_eq!(content.selected(), Some(0));
    content.last();
    assert_eq!(content.selected(), Some(7));
    content.first();
    assert_eq!(content.selected(), Some(0));
    content.next(0);
    assert_eq!(content.selected(), Some(0));
}

#[test]
fn content_cursor_stays_unset_in_an_empty_table() {
    let mut content = ContentState::default();
    content.next(1);
    assert_eq!(content.selected(), None);
    content.prev(1);
    assert_eq!(content.selected(), None);
    content.first();
    assert_eq!(content.selected(), None);
    content.last();
    assert_eq!(content.selected(), None);
    content.active();
    assert_eq!(content.selected(), None);
    assert!(content.is_active());
}

#[test]
fn content_focus_and_selection() {
    let mut content = ContentState::default();
    content.add_projects(projects(3));
    content.active();
    assert!(content.is_active());
    assert_eq!(content.selected(), Some(0));
    content.next(2);
    content.deactive();
    assert!(!content.is_active());
    content.active();
    assert_eq!(content.selected(), Some(2));
    assert_eq!(content.get_selected().name, "item2");
    assert_eq!(content.selected_project().unwrap().name, "item2");
}

#[test]
fn statusline_clamps_the_issue_number() {
    let mut status = StatusLineState::default();
    assert_eq!(status.page_no(), 1);
    assert_eq!(status.mode, SearchMode::Normal);
    status.set_mode(SearchMode::Volume);
    status.set_page_no(5, 80);
    assert_eq!(status.page_no(), 5);
    status.set_page_no(0, 80);
    assert_eq!(status.page_no(), 1);
    status.set_page_no(1, 80);
    assert_eq!(status.page_no(), 1);
    status.set_page_no(85, 80);
    assert_eq!(status.page_no(), 80);
    status.set_page_no(80, 80);
    assert_eq!(status.page_no(), 80);
    // without any issue the number on show is 1
    status.set_page_no(0, 0);
    assert_eq!(status.page_no(), 1);
    status.set_page_no(3, 0);
    assert_eq!(status.page_no(), 1);
    assert_eq!(clamp_to_issue(85, 80), 80);
    assert_eq!(clamp_to_issue(0, 80), 1);
    assert_eq!(clamp_to_issue(7, 80), 7);
}

#[test]
fn statusline_holds_other_pages_at_one_or_above() {
    let mut status = StatusLineState::default();
    status.set_mode(SearchMode::Category);
    status.set_page_no(0, 80);
    assert_eq!(status.page_no(), 1);
    status.set_page_no(85, 80);
    assert_eq!(status.page_no(), 85);
    status.set_mode(SearchMode::Normal);
    status.set_page_no(85, 80);
    assert_eq!(status.page_no(), 85);
    status.set_page_no(0, 80);
    assert_eq!(status.page_no(), 1);
}

#[test]
fn statusline_mode_change_resets_the_page_number() {
    let mut status = StatusLineState::default();
    status.set_page_no(7, 80);
    status.set_mode(SearchMode::Normal);
    assert_eq!(status.page_no(), 7);
    status.set_mode(SearchMode::Category);
    assert_eq!(status.page_no(), 1);
    assert_eq!(status.mode, SearchMode::Category);
    status.set_page_no(4, 80);
    status.set_mode(SearchMode::Category);
    assert_eq!(status.page_no(), 4);
    status.set_mode(SearchMode::Volume);
    assert_eq!(status.page_no(), 1);
}

#[test]
fn statusline_page_number_of_a_search() {
    let mut status = StatusLineState::default();
    status.set_page_no(7, 80);
    assert_eq!(status.get_page_no("rust".to_string(), SearchMode::Normal), 1);
    assert_eq!(status.get_page_no("#42".to_string(), SearchMode::Volume), 42);
    assert_eq!(status.get_page_no("$py".to_string(), SearchMode::Category), 7);
    assert_eq!(number_after_sigil("#42"), Some(42));
    assert_eq!(number_after_sigil("#"), None);
    assert_eq!(number_after_sigil(""), None);
    assert_eq!(number_after_sigil("42"), Some(2));
}

#[test]
fn popup_starts_with_an_empty_error() {
    assert_eq!(PopupState::default().msg, Message::Error(String::new()));
    assert_eq!(Message::default(), Message::Error(String::new()));
}

#[test]
fn detail_takes_the_project_over() {
    let detail = ProjectDetailState::from(project("tool"));
    assert_eq!(detail.name, "tool");
    assert_eq!(detail.url, "https://example.org");
    assert_eq!(detail.star, "s");
    assert_eq!(detail.watch, "w");
    assert_eq!(detail.fork, "f");
    assert_eq!(detail.desc, "d");
    assert_eq!(detail.category, Category::Rust);
    assert_eq!(ProjectDetailState::default().category, Category::Java);
}

#[test]
fn detail_colours_unknown_categories_as_other() {
    assert_eq!(category_or_other("机器学习".to_string()), Category::Other);
    assert_eq!(category_or_other("".to_string()), Category::Other);
    assert_eq!(category_or_other("PHP".to_string()), Category::Php);
    assert_eq!(category_or_other("Objective-C".to_string()), Category::ObjectC);
}
