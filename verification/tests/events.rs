use hgtui::app::App;
use hgtui::category::Category;
use hgtui::events::{
    err, handle_detail, handle_fetched, handle_key_event, handle_notify, handle_popup,
    handle_search, handle_view, press, quit, redraw, show_help, startup_keys,
    startup_notifications, tick, tips, warn, Action, FetchKind, HGEvent, KeyCode, KeyEvent,
    Message, Notify, Render,
};
use hgtui::fetch::Request;
use hgtui::mode::{AppMode, SearchMode};
use hgtui::project::Project;

const SEARCH_PAGE: &str = r#"<html><body><div>
<h2 class="content-subhead"><a class="project-url" href="/periodical/statistics/click/?target=https://github.com/a/first">first</a></h2>
<p>Star 1.2k
   A tool that does things
</p>
<span>第 72 期、Rust 项目</span>
<h2 class="content-subhead"><a class="project-url" href="https://github.com/b/second">second</a></h2>
<p>
   Star 88
   中文
   Another tool
</p>
<span>第 5 期、Python 项目</span>
</div></body></html>"#;

const VOLUME_PAGE: &str = r#"<html><body>
<h1>第 80 期</h1>
<div class="content">
<h2>C 项目</h2>
<a class="project-index" id="one"></a>
<span>1</span>
<a class="project-url" href="https://github.com/x/one">one</a>
<span>a</span><span>b</span><span>c</span>
<p><i class="fa">Star 10</i><i class="fa">Watch 2</i><i class="fa">Fork 3</i><br>First project</p>
</div>
</body></html>"#;

const CATEGORY_PAGE: &str = r#"<html><body>
<h1>Rust 项目</h1>
<h2 class="content-subhead"><a class="project-url" href="https://github.com/a/alpha">alpha</a></h2>
<p><i class="fa">第 70 期</i><i class="fa">Star 1.5k</i><i class="fa">Watch 30</i><i class="fa">Fork 200</i><br>A thing</p>
</body></html>"#;

fn ctrl(c: char) -> KeyEvent {
    KeyEvent { code: KeyCode::Char(c), control: true }
}

fn key(code: KeyCode) -> KeyEvent {
    KeyEvent { code, control: false }
}

fn is_redraw(actions: &Vec<Action>) -> bool {
    actions.len() == 1 && matches!(actions[0], Action::Notify(Notify::Redraw))
}

fn projects(n: usize) -> Vec<Project> {
    (0..n)
        .map(|i| {
            Project::new(
                &format!("item{}", i),
                "第 1 期",
                "Rust 项目",
                &format!("https://example.org/{}", i),
                "d",
                "s",
                "w",
                "f",
            )
        })
        .collect()
}

fn viewing(n: usize) -> App {
    let mut app = App::new(false, 80);
    app.content.add_projects(projects(n));
    app.switch_to_view();
    app
}

fn typed(app: &mut App, text: &str) {
    for c in text.chars() {
        assert!(is_redraw(&handle_key_event(app, press(c))));
    }
}

#[test]
fn notification_events() {
    assert!(matches!(redraw(), HGEvent::NotifyEvent(Notify::Redraw)));
    assert!(matches!(quit(), HGEvent::NotifyEvent(Notify::Quit)));
    assert!(matches!(tick(), HGEvent::NotifyEvent(Notify::Tick)));
    match err("e".to_string()) {
        HGEvent::NotifyEvent(Notify::Message(m)) => assert_eq!(m, Message::Error("e".to_string())),
        other => panic!("unexpected {:?}", other),
    }
    match warn("w".to_string()) {
        HGEvent::NotifyEvent(Notify::Message(m)) => assert_eq!(m, Message::Warn("w".to_string())),
        other => panic!("unexpected {:?}", other),
    }
    match tips("t".to_string()) {
        HGEvent::NotifyEvent(Notify::Message(m)) => assert_eq!(m, Message::Tips("t".to_string())),
        other => panic!("unexpected {:?}", other),
    }
    match show_help() {
        HGEvent::NotifyEvent(Notify::Message(Message::Tips(text))) => {
            assert!(text.starts_with("CTRL j/k 切换 浏览/搜索 模式\n搜索模式\n"));
            assert!(text.ends_with("ENTER 打开 GitHub 页面\nq 退出应用"));
            assert_eq!(text.lines().count(), 17);
        }
        other => panic!("unexpected {:?}", other),
    }
}

#[test]
fn search_scenario_from_typing_to_view() {
    let mut app = App::new(false, 80);
    typed(&mut app, "rust");
    assert_eq!(app.input.input, "rust");
    assert_eq!(app.input.mode, SearchMode::Normal);
    let actions = handle_key_event(&mut app, key(KeyCode::Enter));
    assert_eq!(actions.len(), 1);
    let request = match &actions[0] {
        Action::Fetch(FetchKind::Search, request) => request.duplicate(),
        other => panic!("unexpected {:?}", other),
    };
    assert!(request.same(&Request::Search("rust".to_string())));
    assert!(app.input.is_empty());
    assert_eq!(app.mode, AppMode::Search);
    let actions = handle_fetched(
        &mut app,
        FetchKind::Search,
        &request,
        Ok(SEARCH_PAGE.to_string()),
    );
    assert!(is_redraw(&actions));
    assert_eq!(app.mode, AppMode::View);
    assert_eq!(app.content.selected(), Some(0));
    assert_eq!(app.content.rows().len(), 2);
    assert_eq!(app.content.rows()[0].name, "first");
    assert!(app.content.is_active());
    assert!(!app.input.active);
    assert_eq!(app.statusline.page_no(), 1);
    assert_eq!(app.curr_category, None);
}

#[test]
fn volume_scenario_clamps_to_the_newest_issue() {
    let mut app = App::new(false, 80);
    typed(&mut app, "#999999");
    assert_eq!(app.input.mode, SearchMode::Volume);
    assert_eq!(app.statusline.mode, SearchMode::Volume);
    let actions = handle_key_event(&mut app, key(KeyCode::Enter));
    let request = match &actions[0] {
        Action::Fetch(FetchKind::Search, request) => request.duplicate(),
        other => panic!("unexpected {:?}", other),
    };
    assert!(request.same(&Request::Volume(80)));
    assert!(request.url().ends_with("/volume/80/"));
    let actions = handle_fetched(
        &mut app,
        FetchKind::Search,
        &request,
        Ok(VOLUME_PAGE.to_string()),
    );
    assert!(is_redraw(&actions));
    assert_eq!(app.statusline.page_no(), 80);
    assert_eq!(app.mode, AppMode::View);
    assert_eq!(app.content.rows().len(), 1);
}

#[test]
fn startup_keys_ask_for_the_newest_issue() {
    assert_eq!(
        startup_keys(80),
        vec![press('#'), press('8'), press('0'), key(KeyCode::Enter)]
    );
    assert_eq!(startup_keys(0), vec![press('#'), press('0'), key(KeyCode::Enter)]);
    let mut app = App::new(false, 80);
    let mut last = Vec::new();
    for k in startup_keys(80) {
        last = handle_key_event(&mut app, k);
    }
    match &last[0] {
        Action::Fetch(FetchKind::Search, request) => assert!(request.same(&Request::Volume(80))),
        other => panic!("unexpected {:?}", other),
    }
}

#[test]
fn startup_notifications_draw_and_help() {
    assert_eq!(startup_notifications(false), vec![Notify::Redraw]);
    let notes = startup_notifications(true);
    assert_eq!(notes.len(), 2);
    assert_eq!(notes[0], Notify::Redraw);
    assert!(matches!(notes[1], Notify::Message(Message::Tips(_))));
}

#[test]
fn enter_on_an_empty_query_only_redraws() {
    let mut app = App::new(false, 80);
    let actions = handle_key_event(&mut app, key(KeyCode::Enter));
    assert!(is_redraw(&actions));
    assert_eq!(app.mode, AppMode::Search);
}

#[test]
fn invalid_queries_are_shown_as_errors() {
    let mut app = App::new(false, 80);
    typed(&mut app, "#abc");
    let actions = handle_key_event(&mut app, key(KeyCode::Enter));
    assert_eq!(actions.len(), 2);
    match &actions[0] {
        Action::Notify(Notify::Message(Message::Error(text))) => {
            assert_eq!(text, "请输入有效的期数大于 0 的数字！")
        }
        other => panic!("unexpected {:?}", other),
    }
    assert!(matches!(actions[1], Action::Notify(Notify::Redraw)));
    assert!(app.input.is_empty());
    typed(&mut app, "$cobol");
    let actions = handle_key_event(&mut app, key(KeyCode::Enter));
    match &actions[0] {
        Action::Notify(Notify::Message(Message::Error(text))) => {
            assert_eq!(text, "请输入有效的类别名称，如：java, py, js, go 等")
        }
        other => panic!("unexpected {:?}", other),
    }
}

#[test]
fn failed_fetch_is_shown_as_error() {
    let mut app = App::new(false, 80);
    let actions = handle_fetched(
        &mut app,
        FetchKind::Search,
        &Request::Search("x".to_string()),
        Err("connection refused".to_string()),
    );
    assert_eq!(actions.len(), 2);
    match &actions[0] {
        Action::Notify(Notify::Message(m)) => {
            assert_eq!(*m, Message::Error("connection refused".to_string()))
        }
        other => panic!("unexpected {:?}", other),
    }
    assert_eq!(app.mode, AppMode::Search);
    let actions = handle_fetched(
        &mut app,
        FetchKind::Page,
        &Request::Volume(3),
        Err("timeout".to_string()),
    );
    assert!(matches!(&actions[0], Action::Notify(Notify::Message(Message::Error(_)))));
}

#[test]
fn empty_result_is_a_warning_and_leaves_the_screen() {
    let mut app = viewing(3);
    app.switch_to_search();
    let actions = handle_fetched(
        &mut app,
        FetchKind::Search,
        &Request::Search("nothing".to_string()),
        Ok("<html><body>no results</body></html>".to_string()),
    );
    assert_eq!(actions.len(), 2);
    match &actions[0] {
        Action::Notify(Notify::Message(m)) => {
            assert_eq!(*m, Message::Warn("无结果返回，请确认搜索关键字".to_string()))
        }
        other => panic!("unexpected {:?}", other),
    }
    assert!(matches!(actions[1], Action::Notify(Notify::Redraw)));
    assert_eq!(app.content.rows().len(), 3);
    assert_eq!(app.mode, AppMode::Search);
}

#[test]
fn unreadable_page_is_shown_as_error() {
    let mut app = App::new(false, 80);
    let page = r#"<h2 class="content-subhead"><a class="project-url" href="x">n</a></h2><p>Star 1</p>"#;
    let actions = handle_fetched(
        &mut app,
        FetchKind::Search,
        &Request::Search("x".to_string()),
        Ok(page.to_string()),
    );
    assert_eq!(actions.len(), 2);
    assert!(matches!(&actions[0], Action::Notify(Notify::Message(Message::Error(_)))));
    assert_eq!(app.mode, AppMode::Search);
    assert!(app.content.rows().is_empty());
}

#[test]
fn typing_a_sigil_switches_the_mode_and_resets_the_page() {
    let mut app = App::new(false, 80);
    app.statusline.set_page_no(9, 80);
    typed(&mut app, "r");
    assert_eq!(app.statusline.page_no(), 9);
    handle_key_event(&mut app, key(KeyCode::Backspace));
    typed(&mut app, "$");
    assert_eq!(app.statusline.mode, SearchMode::Category);
    assert_eq!(app.statusline.page_no(), 1);
    app.statusline.set_page_no(4, 80);
    typed(&mut app, "py");
    assert_eq!(app.statusline.page_no(), 4);
    handle_key_event(&mut app, key(KeyCode::Backspace));
    handle_key_event(&mut app, key(KeyCode::Backspace));
    handle_key_event(&mut app, key(KeyCode::Backspace));
    assert!(app.input.is_empty());
    typed(&mut app, "#");
    assert_eq!(app.statusline.mode, SearchMode::Volume);
    assert_eq!(app.statusline.page_no(), 1);
}

#[test]
fn search_mode_keys() {
    let mut app = App::new(false, 80);
    assert!(is_redraw(&handle_search(key(KeyCode::Down), &mut app)));
    assert_eq!(app.mode, AppMode::View);
    app.switch_to_search();
    assert!(is_redraw(&handle_search(key(KeyCode::Esc), &mut app)));
    assert_eq!(app.mode, AppMode::View);
    app.switch_to_search();
    assert!(is_redraw(&handle_search(ctrl('j'), &mut app)));
    assert_eq!(app.mode, AppMode::View);
    app.switch_to_search();
    let actions = handle_search(ctrl('h'), &mut app);
    assert!(matches!(&actions[0], Action::Notify(Notify::Message(Message::Tips(_)))));
    assert_eq!(actions.len(), 1);
    assert!(app.input.is_empty());
    // without Control the same letters are typed
    handle_search(press('j'), &mut app);
    handle_search(press('h'), &mut app);
    // other characters are typed with Control too
    handle_search(ctrl('x'), &mut app);
    assert_eq!(app.input.input, "jhx");
    assert!(handle_search(key(KeyCode::Up), &mut app).is_empty());
    assert!(handle_search(key(KeyCode::Other), &mut app).is_empty());
    assert_eq!(app.mode, AppMode::Search);
    // q is a character in the query box
    assert!(is_redraw(&handle_key_event(&mut app, press('q'))));
    assert_eq!(app.input.input, "jhxq");
}

#[test]
fn double_g_moves_to_the_top() {
    let mut app = viewing(8);
    app.content.next(5);
    assert!(handle_view(press('g'), &mut app).is_empty());
    assert_eq!(app.content.selected(), Some(5));
    assert!(app.pending_g);
    assert!(is_redraw(&handle_view(press('g'), &mut app)));
    assert_eq!(app.content.selected(), Some(0));
    assert!(!app.pending_g);
}

#[test]
fn g_then_j_moves_down_and_forgets_the_g() {
    let mut app = viewing(8);
    app.content.next(3);
    assert!(handle_view(press('g'), &mut app).is_empty());
    assert!(is_redraw(&handle_view(press('j'), &mut app)));
    assert_eq!(app.content.selected(), Some(4));
    assert!(!app.pending_g);
    assert!(handle_view(press('g'), &mut app).is_empty());
    assert_eq!(app.content.selected(), Some(4));
}

#[test]
fn view_mode_moves_the_cursor() {
    let mut app = viewing(20);
    assert!(is_redraw(&handle_view(press('j'), &mut app)));
    assert_eq!(app.content.selected(), Some(1));
    assert!(is_redraw(&handle_view(press('d'), &mut app)));
    assert_eq!(app.content.selected(), Some(6));
    assert!(is_redraw(&handle_view(press('k'), &mut app)));
    assert_eq!(app.content.selected(), Some(5));
    assert!(is_redraw(&handle_view(press('u'), &mut app)));
    assert_eq!(app.content.selected(), Some(0));
    assert!(is_redraw(&handle_view(press('G'), &mut app)));
    assert_eq!(app.content.selected(), Some(19));
    assert!(is_redraw(&handle_view(press('j'), &mut app)));
    assert_eq!(app.content.selected(), Some(19));
    assert!(handle_view(press('x'), &mut app).is_empty());
    assert!(handle_view(key(KeyCode::Down), &mut app).is_empty());
}

#[test]
fn view_mode_switches_back_to_search() {
    let mut app = viewing(3);
    assert!(is_redraw(&handle_view(key(KeyCode::Up), &mut app)));
    assert_eq!(app.mode, AppMode::Search);
    assert!(app.input.active);
    assert!(!app.content.is_active());
    app.switch_to_view();
    assert!(is_redraw(&handle_view(ctrl('k'), &mut app)));
    assert_eq!(app.mode, AppMode::Search);
    app.switch_to_view();
    let actions = handle_view(ctrl('h'), &mut app);
    assert!(matches!(&actions[0], Action::Notify(Notify::Message(Message::Tips(_)))));
    assert_eq!(app.mode, AppMode::View);
}

#[test]
fn view_mode_opens_addresses() {
    let mut app = viewing(3);
    app.content.next(1);
    let actions = handle_view(key(KeyCode::Enter), &mut app);
    assert_eq!(actions.len(), 1);
    match &actions[0] {
        Action::Open(url) => assert_eq!(url, "https://example.org/1"),
        other => panic!("unexpected {:?}", other),
    }
    let actions = handle_view(press('s'), &mut app);
    match &actions[0] {
        Action::Open(url) => assert_eq!(url, "https://github.com/521xueweihan/HelloGitHub"),
        other => panic!("unexpected {:?}", other),
    }
    let mut empty = viewing(0);
    assert!(handle_view(key(KeyCode::Enter), &mut empty).is_empty());
    assert!(handle_view(press('o'), &mut empty).is_empty());
    assert_eq!(empty.mode, AppMode::View);
}

#[test]
fn detail_page_opens_and_closes() {
    let mut app = viewing(3);
    app.content.next(2);
    assert!(is_redraw(&handle_view(press('o'), &mut app)));
    assert_eq!(app.mode, AppMode::Detail);
    assert_eq!(app.project_detail.name, "item2");
    assert_eq!(app.project_detail.category, Category::Rust);
    let actions = handle_detail(key(KeyCode::Enter), &mut app);
    match &actions[0] {
        Action::Open(url) => assert_eq!(url, "https://example.org/2"),
        other => panic!("unexpected {:?}", other),
    }
    assert!(handle_detail(press('x'), &mut app).is_empty());
    assert_eq!(app.mode, AppMode::Detail);
    assert!(is_redraw(&handle_detail(press('o'), &mut app)));
    assert_eq!(app.mode, AppMode::View);
    handle_view(press('o'), &mut app);
    assert!(is_redraw(&handle_detail(key(KeyCode::Esc), &mut app)));
    assert_eq!(app.mode, AppMode::View);
}

#[test]
fn popup_closes_on_any_key() {
    let mut app = viewing(3);
    assert_eq!(handle_notify(&mut app, Notify::Message(Message::Warn("w".to_string()))), Render::Draw);
    assert_eq!(app.mode, AppMode::Popup);
    assert_eq!(app.popup.msg, Message::Warn("w".to_string()));
    assert!(is_redraw(&handle_popup(press('x'), &mut app)));
    assert_eq!(app.mode, AppMode::Search);
    app.popup(Message::Tips("t".to_string()));
    assert!(is_redraw(&handle_key_event(&mut app, key(KeyCode::Enter))));
    assert_eq!(app.mode, AppMode::Search);
}

#[test]
fn quit_keys() {
    let quits = |actions: &Vec<Action>| {
        actions.len() == 1 && matches!(actions[0], Action::Notify(Notify::Quit))
    };
    let mut app = App::new(false, 80);
    assert!(quits(&handle_key_event(&mut app, ctrl('c'))));
    assert!(!quits(&handle_key_event(&mut app, press('q'))));
    let mut app = viewing(3);
    assert!(quits(&handle_key_event(&mut app, press('q'))));
    assert!(quits(&handle_key_event(&mut app, ctrl('q'))));
    assert!(quits(&handle_key_event(&mut app, ctrl('c'))));
    assert_eq!(app.mode, AppMode::View);
    handle_view(press('o'), &mut app);
    assert_eq!(app.mode, AppMode::Detail);
    assert!(quits(&handle_key_event(&mut app, press('q'))));
    assert_eq!(app.mode, AppMode::Detail);
}

#[test]
fn q_closes_the_message_window() {
    let mut app = viewing(3);
    app.popup(Message::Tips("t".to_string()));
    assert!(is_redraw(&handle_key_event(&mut app, press('q'))));
    assert_eq!(app.mode, AppMode::Search);
    // only Control with c leaves from the message window
    app.popup(Message::Tips("t".to_string()));
    let actions = handle_key_event(&mut app, ctrl('c'));
    assert!(matches!(actions[0], Action::Notify(Notify::Quit)));
    assert_eq!(app.mode, AppMode::Popup);
}

#[test]
fn notifications_drive_the_drawing_loop() {
    let mut app = App::new(false, 80);
    assert_eq!(handle_notify(&mut app, Notify::Redraw), Render::Draw);
    assert_eq!(handle_notify(&mut app, Notify::Tick), Render::Draw);
    assert_eq!(app.mode, AppMode::Search);
    assert_eq!(handle_notify(&mut app, Notify::Quit), Render::Stop);
    assert_eq!(
        handle_notify(&mut app, Notify::Message(Message::Error("e".to_string()))),
        Render::Draw
    );
    assert_eq!(app.mode, AppMode::Popup);
}

#[test]
fn paging_in_volume_mode() {
    let mut app = App::new(false, 80);
    typed(&mut app, "#79");
    let actions = handle_key_event(&mut app, key(KeyCode::Enter));
    let request = match &actions[0] {
        Action::Fetch(_, request) => request.duplicate(),
        other => panic!("unexpected {:?}", other),
    };
    handle_fetched(&mut app, FetchKind::Search, &request, Ok(VOLUME_PAGE.to_string()));
    assert_eq!(app.statusline.page_no(), 79);
    let actions = handle_view(press('l'), &mut app);
    let next = match &actions[0] {
        Action::Fetch(FetchKind::Page, request) => request.duplicate(),
        other => panic!("unexpected {:?}", other),
    };
    assert!(next.same(&Request::Volume(80)));
    assert!(is_redraw(&handle_fetched(&mut app, FetchKind::Page, &next, Ok(VOLUME_PAGE.to_string()))));
    assert_eq!(app.statusline.page_no(), 80);
    assert_eq!(app.content.selected(), Some(0));
    // the page after the newest issue is the newest issue
    let actions = handle_view(press('l'), &mut app);
    match &actions[0] {
        Action::Fetch(FetchKind::Page, request) => assert!(request.same(&Request::Volume(80))),
        other => panic!("unexpected {:?}", other),
    }
    let actions = handle_view(press('h'), &mut app);
    match &actions[0] {
        Action::Fetch(FetchKind::Page, request) => assert!(request.same(&Request::Volume(79))),
        other => panic!("unexpected {:?}", other),
    }
}

#[test]
fn the_page_before_the_first_is_the_first() {
    let mut app = App::new(false, 80);
    typed(&mut app, "#1");
    let actions = handle_key_event(&mut app, key(KeyCode::Enter));
    let request = match &actions[0] {
        Action::Fetch(_, request) => request.duplicate(),
        other => panic!("unexpected {:?}", other),
    };
    handle_fetched(&mut app, FetchKind::Search, &request, Ok(VOLUME_PAGE.to_string()));
    assert_eq!(app.statusline.page_no(), 1);
    let actions = handle_view(press('h'), &mut app);
    match &actions[0] {
        Action::Fetch(FetchKind::Page, request) => {
            assert!(request.same(&Request::Volume(1)));
            assert!(request.url().ends_with("/volume/01/"));
        }
        other => panic!("unexpected {:?}", other),
    }
}

#[test]
fn paging_in_category_mode() {
    let mut app = App::new(false, 80);
    typed(&mut app, "$rust");
    let actions = handle_key_event(&mut app, key(KeyCode::Enter));
    let request = match &actions[0] {
        Action::Fetch(FetchKind::Search, request) => request.duplicate(),
        other => panic!("unexpected {:?}", other),
    };
    assert!(request.same(&Request::Category(Category::Rust, 1)));
    handle_fetched(&mut app, FetchKind::Search, &request, Ok(CATEGORY_PAGE.to_string()));
    assert_eq!(app.curr_category, Some(Category::Rust));
    assert_eq!(app.statusline.page_no(), 1);
    let actions = handle_view(press('l'), &mut app);
    let next = match &actions[0] {
        Action::Fetch(FetchKind::Page, request) => request.duplicate(),
        other => panic!("unexpected {:?}", other),
    };
    assert!(next.same(&Request::Category(Category::Rust, 2)));
    handle_fetched(&mut app, FetchKind::Page, &next, Ok(CATEGORY_PAGE.to_string()));
    assert_eq!(app.statusline.page_no(), 2);
    assert_eq!(app.mode, AppMode::View);
    // a page of a category above the number of the newest issue is shown as itself
    let far = Request::Category(Category::Rust, 120);
    handle_fetched(&mut app, FetchKind::Page, &far, Ok(CATEGORY_PAGE.to_string()));
    assert_eq!(app.statusline.page_no(), 120);
}

#[test]
fn paging_in_text_mode_only_redraws() {
    let mut app = viewing(3);
    assert!(is_redraw(&handle_view(press('l'), &mut app)));
    assert!(is_redraw(&handle_view(press('h'), &mut app)));
    assert_eq!(app.statusline.page_no(), 1);
}
