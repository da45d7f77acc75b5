//! Events, notifications and what each key does in each mode.
//!
//! Handling a key changes the application state and returns the actions that the caller is
//! to perform: notifications to send, a page to fetch, an address to open. The handlers are
//! stated over the state as plain values, as functions from state and key to next state and
//! actions.

use crate::app::{
    detail_opened, focus_query, focus_table, page_after, page_before, page_request,
    page_turned, request_mode, results_answer, results_shown, search_begun, search_wanted,
    with_message, App, Screen,
};
use crate::error::Error;
use crate::fetch::{decimal, write_decimal, Request, RequestView};
use crate::mode::{mode_of_sigil, AppMode, SearchMode};
use crate::parse::page_of;
use crate::widget::content::{row_above, row_below, row_of};
use vstd::prelude::*;

verus! {

/// A message for the user.
#[derive(Debug, Clone, PartialEq)]
pub enum Message {
    Error(String),
    Warn(String),
    Tips(String),
}

/// What a message holds.
pub enum MessageView {
    Error(Seq<char>),
    Warn(Seq<char>),
    Tips(Seq<char>),
}

impl View for Message {
    type V = MessageView;

    open spec fn view(&self) -> MessageView {
        match self {
            Message::Error(text) => MessageView::Error(text@),
            Message::Warn(text) => MessageView::Warn(text@),
            Message::Tips(text) => MessageView::Tips(text@),
        }
    }
}

impl Default for Message {
    fn default() -> (m: Message)
        ensures
            m@ == MessageView::Error(Seq::<char>::empty()),
    {
        Message::Error(String::new())
    }
}

/// A notification to the loop that draws the screen.
#[derive(Debug, Clone, PartialEq)]
pub enum Notify {
    /// Draw the screen again.
    Redraw,
    /// Leave the application.
    Quit,
    /// Show a message in the message window.
    Message(Message),
    /// A second has passed.
    Tick,
}

/// What a notification holds.
pub enum NotifyView {
    Redraw,
    Quit,
    Message(MessageView),
    Tick,
}

impl View for Notify {
    type V = NotifyView;

    open spec fn view(&self) -> NotifyView {
        match self {
            Notify::Redraw => NotifyView::Redraw,
            Notify::Quit => NotifyView::Quit,
            Notify::Message(message) => NotifyView::Message(message@),
            Notify::Tick => NotifyView::Tick,
        }
    }
}

/// The key of a key press.
#[derive(Debug, Clone, Copy, PartialEq, Eq, Structural)]
pub enum KeyCode {
    Char(char),
    Enter,
    Backspace,
    Up,
    Down,
    Esc,
    /// Any other key.
    Other,
}

/// A key press.
#[derive(Debug, Clone, Copy, PartialEq, Eq, Structural)]
pub struct KeyEvent {
    /// The key.
    pub code: KeyCode,
    /// Whether Control, and no other modifier, was held.
    pub control: bool,
}

/// What travels on the event queue.
#[derive(Debug, Clone)]
pub enum HGEvent {
    /// A key press.
    UserEvent(KeyEvent),
    /// A notification.
    NotifyEvent(Notify),
}

/// What an event holds.
pub enum HGEventView {
    UserEvent(KeyEvent),
    NotifyEvent(NotifyView),
}

impl View for HGEvent {
    type V = HGEventView;

    open spec fn view(&self) -> HGEventView {
        match self {
            HGEvent::UserEvent(key) => HGEventView::UserEvent(*key),
            HGEvent::NotifyEvent(notify) => HGEventView::NotifyEvent(notify@),
        }
    }
}

/// Why a page is fetched.
#[derive(Debug, Clone, Copy, PartialEq, Eq, Structural)]
pub enum FetchKind {
    /// For a search.
    Search,
    /// For a change of page.
    Page,
}

/// What the caller is to do after a key was handled.
#[derive(Debug, Clone)]
pub enum Action {
    /// Send a notification.
    Notify(Notify),
    /// Fetch a page and hand its text back.
    Fetch(FetchKind, Request),
    /// Open an address in the browser.
    Open(String),
}

/// What an action holds.
pub enum ActionView {
    Notify(NotifyView),
    Fetch(FetchKind, RequestView),
    Open(Seq<char>),
}

impl View for Action {
    type V = ActionView;

    open spec fn view(&self) -> ActionView {
        match self {
            Action::Notify(notify) => ActionView::Notify(notify@),
            Action::Fetch(kind, request) => ActionView::Fetch(*kind, request@),
            Action::Open(url) => ActionView::Open(url@),
        }
    }
}

/// What a list of actions holds.
pub open spec fn action_views(actions: Seq<Action>) -> Seq<ActionView> {
    actions.map_values(|a: Action| a@)
}

/// What the drawing loop does after a notification.
#[derive(Debug, Clone, Copy, PartialEq, Eq, Structural)]
pub enum Render {
    /// Draw the screen.
    Draw,
    /// Leave the loop.
    Stop,
}

/// The help text.
pub open spec fn help_text() -> Seq<char> {
    "CTRL j/k 切换 浏览/搜索 模式\n搜索模式\nCtrl+h 获得帮助\n输入 #{数字} 按期数搜索\n输入 ${类别} 按类别搜索\n其他按关键字搜索\n\n浏览模式：\nk/j 上/下 移动一行\nu/d 上/下 移动五行\ngg 移动至首行\nG  移动至末行\nh/l 前/后 翻页\no 查看（关闭）详细\ns 帮 HG 点个小星星吧\nENTER 打开 GitHub 页面\nq 退出应用"@
}

/// The address of the digest's own repository.
pub open spec fn promo_url() -> Seq<char> {
    "https://github.com/521xueweihan/HelloGitHub"@
}

/// The event that asks for the screen to be drawn again.
pub fn redraw() -> (e: HGEvent)
    ensures
        e@ == HGEventView::NotifyEvent(NotifyView::Redraw),
{
    HGEvent::NotifyEvent(Notify::Redraw)
}

/// The event that asks the application to leave.
pub fn quit() -> (e: HGEvent)
    ensures
        e@ == HGEventView::NotifyEvent(NotifyView::Quit),
{
    HGEvent::NotifyEvent(Notify::Quit)
}

/// The event that shows an error.
pub fn err(msg: String) -> (e: HGEvent)
    ensures
        e@ == HGEventView::NotifyEvent(NotifyView::Message(MessageView::Error(msg@))),
{
    HGEvent::NotifyEvent(Notify::Message(Message::Error(msg)))
}

/// The event that shows a warning.
pub fn warn(msg: String) -> (e: HGEvent)
    ensures
        e@ == HGEventView::NotifyEvent(NotifyView::Message(MessageView::Warn(msg@))),
{
    HGEvent::NotifyEvent(Notify::Message(Message::Warn(msg)))
}

/// The event that shows a hint.
pub fn tips(msg: String) -> (e: HGEvent)
    ensures
        e@ == HGEventView::NotifyEvent(NotifyView::Message(MessageView::Tips(msg@))),
{
    HGEvent::NotifyEvent(Notify::Message(Message::Tips(msg)))
}

/// The event that shows the help text.
pub fn show_help() -> (e: HGEvent)
    ensures
        e@ == HGEventView::NotifyEvent(NotifyView::Message(MessageView::Tips(help_text()))),
{
    tips(
        "CTRL j/k 切换 浏览/搜索 模式\n搜索模式\nCtrl+h 获得帮助\n输入 #{数字} 按期数搜索\n输入 ${类别} 按类别搜索\n其他按关键字搜索\n\n浏览模式：\nk/j 上/下 移动一行\nu/d 上/下 移动五行\ngg 移动至首行\nG  移动至末行\nh/l 前/后 翻页\no 查看（关闭）详细\ns 帮 HG 点个小星星吧\nENTER 打开 GitHub 页面\nq 退出应用".to_owned(),
    )
}

/// The event that says a second has passed.
pub fn tick() -> (e: HGEvent)
    ensures
        e@ == HGEventView::NotifyEvent(NotifyView::Tick),
{
    HGEvent::NotifyEvent(Notify::Tick)
}

/// The one action of drawing the screen again.
pub open spec fn just_redraw() -> Seq<ActionView> {
    seq![ActionView::Notify(NotifyView::Redraw)]
}

/// The actions of showing a message and drawing the screen again.
pub open spec fn tell(message: MessageView) -> Seq<ActionView> {
    seq![ActionView::Notify(NotifyView::Message(message)), ActionView::Notify(NotifyView::Redraw)]
}

/// The one action of showing the help text.
pub open spec fn just_help() -> Seq<ActionView> {
    seq![ActionView::Notify(NotifyView::Message(MessageView::Tips(help_text())))]
}

/// The screen after a character was typed into the query box. The first character of a
/// query selects the mode, and a change of mode puts the page number back to 1.
pub open spec fn typed(s: Screen, c: char) -> Screen {
    let mode = if s.query.len() == 0 {
        mode_of_sigil(c)
    } else {
        s.query_mode
    };
    Screen {
        query: s.query.push(c),
        query_mode: mode,
        status_mode: mode,
        page_no: if s.status_mode != mode {
            1
        } else {
            s.page_no
        },
        ..s
    }
}

/// The screen after the last character of the query was taken away.
pub open spec fn erased(s: Screen) -> Screen {
    Screen {
        query: if s.query.len() == 0 {
            s.query
        } else {
            s.query.drop_last()
        },
        ..s
    }
}

/// The screen with the cursor moved down by `incr` rows.
pub open spec fn moved_down(s: Screen, incr: nat) -> Screen {
    Screen {
        cursor: if s.projects.len() == 0 {
            None::<nat>
        } else {
            Some(row_below(row_of(s.cursor), incr, s.projects.len()))
        },
        ..s
    }
}

/// The screen with the cursor moved up by `incr` rows.
pub open spec fn moved_up(s: Screen, incr: nat) -> Screen {
    Screen {
        cursor: if s.projects.len() == 0 {
            None::<nat>
        } else {
            Some(row_above(row_of(s.cursor), incr))
        },
        ..s
    }
}

/// The screen with the cursor on the first row.
pub open spec fn moved_first(s: Screen) -> Screen {
    Screen {
        cursor: if s.projects.len() == 0 {
            None::<nat>
        } else {
            Some(0nat)
        },
        ..s
    }
}

/// The screen with the cursor on the last row.
pub open spec fn moved_last(s: Screen) -> Screen {
    Screen {
        cursor: if s.projects.len() == 0 {
            None::<nat>
        } else {
            Some((s.projects.len() - 1) as nat)
        },
        ..s
    }
}

/// The actions that start a change to page `page_no`: fetching that page, or only drawing
/// the screen again where there is no such page.
pub open spec fn turn_to(s: Screen, page_no: nat) -> Seq<ActionView> {
    match page_request(s.query_mode, s.category, page_no, s.max_volume) {
        Some(request) => seq![ActionView::Fetch(FetchKind::Page, request)],
        None => just_redraw(),
    }
}

/// The actions that open the selected project in the browser; none where no row is
/// selected.
pub open spec fn open_selected(s: Screen) -> Seq<ActionView> {
    match s.cursor {
        Some(row) => seq![ActionView::Open(s.projects[row as int].url)],
        None => Seq::empty(),
    }
}

/// What a key does while the query box has the keyboard.
pub open spec fn search_key(s: Screen, key: KeyEvent) -> (Screen, Seq<ActionView>) {
    if (key.control && key.code == KeyCode::Char('j')) || key.code == KeyCode::Down || key.code
        == KeyCode::Esc {
        (focus_table(s), just_redraw())
    } else if key.control && key.code == KeyCode::Char('h') {
        (s, just_help())
    } else {
        match key.code {
            KeyCode::Char(c) => (typed(s, c), just_redraw()),
            KeyCode::Enter => (
                search_begun(s, None),
                match search_wanted(s, None) {
                    Ok(None) => just_redraw(),
                    Ok(Some(request)) => seq![ActionView::Fetch(FetchKind::Search, request)],
                    Err(e) => tell(MessageView::Error(e.text())),
                },
            ),
            KeyCode::Backspace => (erased(s), just_redraw()),
            _ => (s, Seq::empty()),
        }
    }
}

/// What a key other than `g` does while the result table has the keyboard.
pub open spec fn table_key(s: Screen, key: KeyEvent) -> (Screen, Seq<ActionView>) {
    if (key.control && key.code == KeyCode::Char('k')) || key.code == KeyCode::Up {
        (focus_query(s), just_redraw())
    } else if key.control && key.code == KeyCode::Char('h') {
        (s, just_help())
    } else {
        match key.code {
            KeyCode::Char(c) => if c == 'j' {
                (moved_down(s, 1), just_redraw())
            } else if c == 'k' {
                (moved_up(s, 1), just_redraw())
            } else if c == 'd' {
                (moved_down(s, 5), just_redraw())
            } else if c == 'u' {
                (moved_up(s, 5), just_redraw())
            } else if c == 'G' {
                (moved_last(s), just_redraw())
            } else if c == 's' {
                (s, seq![ActionView::Open(promo_url())])
            } else if c == 'l' {
                (s, turn_to(s, page_after(s.page_no)))
            } else if c == 'h' {
                (s, turn_to(s, page_before(s.page_no)))
            } else if c == 'o' {
                if s.cursor is Some {
                    (detail_opened(s), just_redraw())
                } else {
                    (s, Seq::empty())
                }
            } else {
                (s, Seq::empty())
            },
            KeyCode::Enter => (s, open_selected(s)),
            _ => (s, Seq::empty()),
        }
    }
}

/// What a key does while the result table has the keyboard. A first `g` is only
/// remembered; a second `g` right after it moves the cursor to the first row; any other key
/// forgets a first `g` and then does what it does.
pub open spec fn view_key(s: Screen, key: KeyEvent) -> (Screen, Seq<ActionView>) {
    if key.code == KeyCode::Char('g') {
        if s.pending_g {
            (Screen { pending_g: false, ..moved_first(s) }, just_redraw())
        } else {
            (Screen { pending_g: true, ..s }, Seq::empty())
        }
    } else {
        table_key(Screen { pending_g: false, ..s }, key)
    }
}

/// What a key does while the message window is open: any key closes it.
pub open spec fn popup_key(s: Screen, key: KeyEvent) -> (Screen, Seq<ActionView>) {
    (Screen { mode: AppMode::Search, ..s }, just_redraw())
}

/// What a key does while the detail page is open.
pub open spec fn detail_key(s: Screen, key: KeyEvent) -> (Screen, Seq<ActionView>) {
    match key.code {
        KeyCode::Char(c) => if c == 'o' {
            (Screen { mode: AppMode::View, ..s }, just_redraw())
        } else {
            (s, Seq::empty())
        },
        KeyCode::Esc => (Screen { mode: AppMode::View, ..s }, just_redraw()),
        KeyCode::Enter => (s, open_selected(s)),
        _ => (s, Seq::empty()),
    }
}

/// Whether a key asks the application to leave: Control with `c` anywhere, `q` while the
/// result table or the detail page has the keyboard. In the query box `q` is a character,
/// and in the message window it is a key like any other.
pub open spec fn is_quit(s: Screen, key: KeyEvent) -> bool {
    (key.control && key.code == KeyCode::Char('c')) || (key.code == KeyCode::Char('q') && (s.mode
        == AppMode::View || s.mode == AppMode::Detail))
}

/// What a key does.
pub open spec fn key_step(s: Screen, key: KeyEvent) -> (Screen, Seq<ActionView>) {
    if is_quit(s, key) {
        (s, seq![ActionView::Notify(NotifyView::Quit)])
    } else {
        match s.mode {
            AppMode::Search => search_key(s, key),
            AppMode::View => view_key(s, key),
            AppMode::Popup => popup_key(s, key),
            AppMode::Detail => detail_key(s, key),
        }
    }
}

/// What the arrival of a fetched page does. A fetch that failed is shown as an error. A
/// page fetched for a search is read and put on show, with a warning where it holds no
/// project; a page fetched for a change of page is read and put on show. A page that cannot
/// be read is shown as an error.
pub open spec fn fetched_step(
    s: Screen,
    kind: FetchKind,
    request: RequestView,
    outcome: Result<Seq<char>, Seq<char>>,
) -> (Screen, Seq<ActionView>) {
    match outcome {
        Err(reason) => (s, tell(MessageView::Error(reason))),
        Ok(html) => {
            let page = page_of(request_mode(request), html);
            match kind {
                FetchKind::Search => (
                    results_shown(s, request, page),
                    match results_answer(page) {
                        Ok(None) => just_redraw(),
                        Ok(Some(message)) => tell(message),
                        Err(e) => tell(MessageView::Error(e.text())),
                    },
                ),
                FetchKind::Page => (
                    page_turned(s, request, page),
                    match page {
                        Ok(_) => just_redraw(),
                        Err(e) => tell(MessageView::Error(e.text())),
                    },
                ),
            }
        },
    }
}

/// What a notification does: a message opens the message window, `Quit` ends the drawing
/// loop, and everything but `Quit` draws the screen.
pub open spec fn notify_step(s: Screen, notify: NotifyView) -> (Screen, Render) {
    match notify {
        NotifyView::Redraw => (s, Render::Draw),
        NotifyView::Tick => (s, Render::Draw),
        NotifyView::Message(message) => (with_message(s, message), Render::Draw),
        NotifyView::Quit => (s, Render::Stop),
    }
}

/// No action.
fn nothing() -> (actions: Vec<Action>)
    ensures
        action_views(actions@) == Seq::<ActionView>::empty(),
{
    let actions: Vec<Action> = Vec::new();
    assert(action_views(actions@) =~= Seq::<ActionView>::empty());
    actions
}

/// One action.
fn only(action: Action) -> (actions: Vec<Action>)
    ensures
        action_views(actions@) == seq![action@],
{
    let mut actions: Vec<Action> = Vec::new();
    actions.push(action);
    assert(action_views(actions@) =~= seq![action@]);
    actions
}

/// The action of drawing the screen again.
fn redrawn() -> (actions: Vec<Action>)
    ensures
        action_views(actions@) == just_redraw(),
{
    only(Action::Notify(Notify::Redraw))
}

/// The actions of showing a message and drawing the screen again.
fn told(message: Message) -> (actions: Vec<Action>)
    ensures
        action_views(actions@) == tell(message@),
{
    let mut actions: Vec<Action> = Vec::new();
    actions.push(Action::Notify(Notify::Message(message)));
    actions.push(Action::Notify(Notify::Redraw));
    assert(action_views(actions@) =~= tell(message@));
    actions
}

/// The action of showing the help text.
fn helped() -> (actions: Vec<Action>)
    ensures
        action_views(actions@) == just_help(),
{
    match show_help() {
        HGEvent::NotifyEvent(notify) => only(Action::Notify(notify)),
        HGEvent::UserEvent(_) => only(Action::Notify(Notify::Redraw)),
    }
}

/// The actions that start a change of page.
fn turned(wanted: Option<Request>) -> (actions: Vec<Action>)
    ensures
        action_views(actions@) == match wanted {
            Some(request) => seq![ActionView::Fetch(FetchKind::Page, request@)],
            None => just_redraw(),
        },
{
    match wanted {
        Some(request) => only(Action::Fetch(FetchKind::Page, request)),
        None => redrawn(),
    }
}

/// The actions that open the selected project in the browser.
fn opened(app: &App) -> (actions: Vec<Action>)
    ensures
        action_views(actions@) == open_selected(app@),
{
    match app.content.selected() {
        Some(_) => only(Action::Open(app.open_browser(None))),
        None => nothing(),
    }
}

/// Handles a key while the query box has the keyboard.
pub fn handle_search(key: KeyEvent, app: &mut App) -> (actions: Vec<Action>)
    ensures
        (final(app)@, action_views(actions@)) == search_key(old(app)@, key),
{
    match key.code {
        KeyCode::Down | KeyCode::Esc => {
            app.switch_to_view();
            redrawn()
        },
        KeyCode::Char(c) => {
            if key.control && c == 'j' {
                app.switch_to_view();
                redrawn()
            } else if key.control && c == 'h' {
                helped()
            } else {
                let mode = app.input.handle_char(c);
                app.statusline.set_mode(mode);
                redrawn()
            }
        },
        KeyCode::Enter => match app.search(None) {
            Ok(None) => redrawn(),
            Ok(Some(request)) => only(Action::Fetch(FetchKind::Search, request)),
            Err(e) => told(Message::Error(e.message())),
        },
        KeyCode::Backspace => {
            app.input.handle_backspace();
            redrawn()
        },
        _ => nothing(),
    }
}

/// Handles a key while the result table has the keyboard.
pub fn handle_view(key: KeyEvent, app: &mut App) -> (actions: Vec<Action>)
    ensures
        (final(app)@, action_views(actions@)) == view_key(old(app)@, key),
{
    match key.code {
        KeyCode::Char(c) => {
            if c == 'g' {
                if app.pending_g {
                    app.content.first();
                    app.pending_g = false;
                    return redrawn();
                } else {
                    app.pending_g = true;
                    return nothing();
                }
            }
            app.pending_g = false;
            if key.control && c == 'k' {
                app.switch_to_search();
                redrawn()
            } else if key.control && c == 'h' {
                helped()
            } else if c == 'j' {
                app.content.next(1);
                redrawn()
            } else if c == 'k' {
                app.content.prev(1);
                redrawn()
            } else if c == 'd' {
                app.content.next(5);
                redrawn()
            } else if c == 'u' {
                app.content.prev(5);
                redrawn()
            } else if c == 'G' {
                app.content.last();
                redrawn()
            } else if c == 's' {
                only(Action::Open("https://github.com/521xueweihan/HelloGitHub".to_owned()))
            } else if c == 'l' {
                turned(app.next_page())
            } else if c == 'h' {
                turned(app.prev_page())
            } else if c == 'o' {
                match app.content.selected() {
                    Some(_) => {
                        app.display_detail();
                        redrawn()
                    },
                    None => nothing(),
                }
            } else {
                nothing()
            }
        },
        KeyCode::Up => {
            app.pending_g = false;
            app.switch_to_search();
            redrawn()
        },
        KeyCode::Enter => {
            app.pending_g = false;
            opened(app)
        },
        _ => {
            app.pending_g = false;
            nothing()
        },
    }
}

/// Handles a key while the message window is open.
pub fn handle_popup(key: KeyEvent, app: &mut App) -> (actions: Vec<Action>)
    ensures
        (final(app)@, action_views(actions@)) == popup_key(old(app)@, key),
{
    app.mode = AppMode::Search;
    redrawn()
}

/// Handles a key while the detail page is open.
pub fn handle_detail(key: KeyEvent, app: &mut App) -> (actions: Vec<Action>)
    ensures
        (final(app)@, action_views(actions@)) == detail_key(old(app)@, key),
{
    match key.code {
        KeyCode::Char(c) => {
            if c == 'o' {
                app.mode = AppMode::View;
                redrawn()
            } else {
                nothing()
            }
        },
        KeyCode::Esc => {
            app.mode = AppMode::View;
            redrawn()
        },
        KeyCode::Enter => opened(app),
        _ => nothing(),
    }
}

/// Handles a key press: changes the state and returns what the caller is to do. A `Quit`
/// notification among the actions also ends the handling of keys.
pub fn handle_key_event(app: &mut App, key: KeyEvent) -> (actions: Vec<Action>)
    ensures
        (final(app)@, action_views(actions@)) == key_step(old(app)@, key),
{
    let leave = match key.code {
        KeyCode::Char(c) => (key.control && c == 'c') || (c == 'q' && matches!(
            app.mode,
            AppMode::View | AppMode::Detail
        )),
        _ => false,
    };
    if leave {
        return only(Action::Notify(Notify::Quit));
    }
    match app.mode {
        AppMode::Search => handle_search(key, app),
        AppMode::View => handle_view(key, app),
        AppMode::Popup => handle_popup(key, app),
        AppMode::Detail => handle_detail(key, app),
    }
}

/// What the outcome of a fetch holds.
pub open spec fn outcome_view(outcome: Result<String, String>) -> Result<Seq<char>, Seq<char>> {
    match outcome {
        Ok(html) => Ok(html@),
        Err(reason) => Err(reason@),
    }
}

/// Handles the arrival of a page that an action asked for: `outcome` is the page's text, or
/// the reason why it could not be fetched.
pub fn handle_fetched(
    app: &mut App,
    kind: FetchKind,
    request: &Request,
    outcome: Result<String, String>,
) -> (actions: Vec<Action>)
    ensures
        (final(app)@, action_views(actions@)) == fetched_step(
            old(app)@,
            kind,
            request@,
            outcome_view(outcome),
        ),
{
    let html = match outcome {
        Ok(html) => html,
        Err(reason) => {
            return told(Message::Error(reason));
        },
    };
    match kind {
        FetchKind::Search => match app.show_results(request, html) {
            Ok(None) => redrawn(),
            Ok(Some(message)) => told(message),
            Err(e) => told(Message::Error(e.message())),
        },
        FetchKind::Page => match app.turn_page(request, html) {
            Ok(_) => redrawn(),
            Err(e) => told(Message::Error(e.message())),
        },
    }
}

/// Handles a notification in the drawing loop.
pub fn handle_notify(app: &mut App, notify: Notify) -> (render: Render)
    ensures
        (final(app)@, render) == notify_step(old(app)@, notify@),
{
    match notify {
        Notify::Redraw => Render::Draw,
        Notify::Tick => Render::Draw,
        Notify::Message(message) => {
            app.popup(message);
            Render::Draw
        },
        Notify::Quit => Render::Stop,
    }
}

/// The press of a character key without Control.
pub open spec fn plain_key(c: char) -> KeyEvent {
    KeyEvent { code: KeyCode::Char(c), control: false }
}

/// The keys that are handled before any key of the user, so that the newest issue is on
/// show at start: `#`, the number of the newest issue, Enter.
pub open spec fn opening_keys(max_volume: nat) -> Seq<KeyEvent> {
    seq![plain_key('#')] + decimal(max_volume).map_values(|c: char| plain_key(c))
        + seq![KeyEvent { code: KeyCode::Enter, control: false }]
}

/// The notifications that the drawing loop starts with: a first drawing, and the help
/// text where it is to be shown at start.
pub open spec fn opening_notes(show_help: bool) -> Seq<NotifyView> {
    if show_help {
        seq![NotifyView::Redraw, NotifyView::Message(MessageView::Tips(help_text()))]
    } else {
        seq![NotifyView::Redraw]
    }
}

/// What a list of notifications holds.
pub open spec fn notify_views(notes: Seq<Notify>) -> Seq<NotifyView> {
    notes.map_values(|n: Notify| n@)
}

/// The notifications that the drawing loop starts with.
pub fn startup_notifications(with_help: bool) -> (notes: Vec<Notify>)
    ensures
        notify_views(notes@) == opening_notes(with_help),
{
    let mut notes: Vec<Notify> = Vec::new();
    notes.push(Notify::Redraw);
    if with_help {
        match show_help() {
            HGEvent::NotifyEvent(note) => {
                notes.push(note);
            },
            HGEvent::UserEvent(_) => {},
        }
    }
    assert(notify_views(notes@) =~= opening_notes(with_help));
    notes
}

/// The press of a character key without Control.
pub fn press(c: char) -> (key: KeyEvent)
    ensures
        key == plain_key(c),
{
    KeyEvent { code: KeyCode::Char(c), control: false }
}

/// The keys that are handled before any key of the user.
pub fn startup_keys(max_volume: usize) -> (keys: Vec<KeyEvent>)
    ensures
        keys@ == opening_keys(max_volume as nat),
{
    let digits = write_decimal(max_volume);
    let mut keys: Vec<KeyEvent> = Vec::new();
    keys.push(press('#'));
    let mut i: usize = 0;
    while i < digits.len()
        invariant
            i <= digits.len(),
            keys.len() == i + 1,
            keys[0] == plain_key('#'),
            forall|k: int| 0 <= k < i ==> #[trigger] keys[k + 1] == plain_key(digits[k]),
        decreases digits.len() - i,
    {
        keys.push(press(digits[i]));
        i = i + 1;
    }
    let ghost typed_keys = keys@;
    keys.push(KeyEvent { code: KeyCode::Enter, control: false });
    proof {
        let expect = opening_keys(max_volume as nat);
        assert(expect.len() == keys.len());
        assert forall|j: int| 0 <= j < keys.len() implies keys@[j] == expect[j] by {
            if 0 < j <= digits.len() {
                assert(typed_keys[(j - 1) + 1] == plain_key(digits[j - 1]));
            }
        }
        assert(keys@ =~= expect);
    }
    keys
}

/// In a table with rows, `g` pressed twice puts the cursor on the first row.
pub proof fn lemma_double_g_goes_to_top(s: Screen)
    requires
        s.projects.len() > 0,
        !s.pending_g,
    ensures
        view_key(view_key(s, plain_key('g')).0, plain_key('g')).0.cursor == Some(0nat),
        !view_key(view_key(s, plain_key('g')).0, plain_key('g')).0.pending_g,
{
}

/// `g` followed by `j` moves the cursor down by one row and forgets the `g`: a single `g`
/// pressed later leaves the cursor where it is.
pub proof fn lemma_g_then_j_moves_down(s: Screen)
    requires
        !s.pending_g,
    ensures
        ({
            let after_g = view_key(s, plain_key('g')).0;
            let after_j = view_key(after_g, plain_key('j')).0;
            let later = view_key(after_j, plain_key('g')).0;
            &&& after_g.cursor == s.cursor
            &&& after_j.cursor == moved_down(s, 1).cursor
            &&& !after_j.pending_g
            &&& later.cursor == after_j.cursor
        }),
{
}

/// A typed character that changes the search mode puts the page number back to 1, and one
/// that does not leaves it.
pub proof fn lemma_mode_switch_resets_page(s: Screen, c: char)
    ensures
        typed(s, c).status_mode != s.status_mode ==> typed(s, c).page_no == 1,
        typed(s, c).status_mode == s.status_mode ==> typed(s, c).page_no == s.page_no,
{
}

/// With the message window open every key but Control with `c` closes the window and
/// gives the keyboard to the query box; `q` is no exception. `q` asks to leave from the
/// result table, and is typed in the query box.
pub proof fn lemma_q_by_mode(s: Screen)
    ensures
        s.mode == AppMode::Popup ==> key_step(s, plain_key('q')) == (
            Screen { mode: AppMode::Search, ..s },
            just_redraw(),
        ),
        s.mode == AppMode::View ==> key_step(s, plain_key('q')) == (
            s,
            seq![ActionView::Notify(NotifyView::Quit)],
        ),
        s.mode == AppMode::Search ==> key_step(s, plain_key('q')) == (
            typed(s, 'q'),
            just_redraw(),
        ),
{
}

} // verus!
