//! The application state and what a search or a change of page does to it.
//!
//! A search and a change of page each come in two steps. The first step resolves which
//! page is wanted; the caller fetches that page; the second step reads the page and puts
//! its projects on show.

use crate::category::Category;
use crate::error::Error;
use crate::events::{Message, MessageView};
use crate::fetch::{
    clamp_volume, fetch, request_of, resolved_view, Request, RequestView,
};
use crate::mode::{AppMode, SearchMode};
use crate::parse::{page_of, parse_page};
use crate::project::ProjectView;
use crate::rows::text_view;
use crate::widget::projectdetail::{colour_category, ProjectDetailState};
use crate::widget::statusline::{at_least_one, clamp_page, clamp_to_issue};
use crate::widget::{ContentState, InputState, PopupState, StatusLineState};
use vstd::prelude::*;

verus! {

/// Everything the screen shows and the keys act on.
pub struct App {
    /// The query box.
    pub input: InputState,
    /// The result table.
    pub content: ContentState,
    /// The message window.
    pub popup: PopupState,
    /// The status line.
    pub statusline: StatusLineState,
    /// Which part of the screen owns the keyboard.
    pub mode: AppMode,
    /// The category on show, while a category is on show.
    pub curr_category: Option<Category>,
    /// The detail page.
    pub project_detail: ProjectDetailState,
    /// Whether the help text is shown at start.
    pub show_help: bool,
    /// The number of the newest issue.
    pub max_volume: usize,
    /// Whether the last key in the table was a first `g`.
    pub pending_g: bool,
}

/// What the detail page shows.
pub struct DetailView {
    pub name: Seq<char>,
    pub url: Seq<char>,
    pub star: Seq<char>,
    pub watch: Seq<char>,
    pub fork: Seq<char>,
    pub desc: Seq<char>,
    pub category: Category,
}

/// The application state as plain values.
pub struct Screen {
    /// The text in the query box.
    pub query: Seq<char>,
    /// Whether the query box has the keyboard.
    pub query_active: bool,
    /// The mode that the query selected.
    pub query_mode: SearchMode,
    /// The projects on show.
    pub projects: Seq<ProjectView>,
    /// The selected row of the table.
    pub cursor: Option<nat>,
    /// Whether the table has the keyboard.
    pub table_active: bool,
    /// The message in the message window.
    pub message: MessageView,
    /// The mode that the status line shows.
    pub status_mode: SearchMode,
    /// The page number that the status line shows.
    pub page_no: nat,
    /// Which part of the screen owns the keyboard.
    pub mode: AppMode,
    /// The category on show.
    pub category: Option<Category>,
    /// The detail page.
    pub detail: DetailView,
    /// Whether the help text is shown at start.
    pub show_help: bool,
    /// The number of the newest issue.
    pub max_volume: nat,
    /// Whether the last key in the table was a first `g`.
    pub pending_g: bool,
}

impl View for App {
    type V = Screen;

    open spec fn view(&self) -> Screen {
        Screen {
            query: self.input.input@,
            query_active: self.input.active,
            query_mode: self.input.mode,
            projects: self.content.projects(),
            cursor: self.content.cursor(),
            table_active: self.content.focused(),
            message: self.popup.msg@,
            status_mode: self.statusline.mode,
            page_no: self.statusline.page_no as nat,
            mode: self.mode,
            category: self.curr_category,
            detail: DetailView {
                name: self.project_detail.name@,
                url: self.project_detail.url@,
                star: self.project_detail.star@,
                watch: self.project_detail.watch@,
                fork: self.project_detail.fork@,
                desc: self.project_detail.desc@,
                category: self.project_detail.category,
            },
            show_help: self.show_help,
            max_volume: self.max_volume as nat,
            pending_g: self.pending_g,
        }
    }
}

/// The text shown when a search finds nothing.
pub open spec fn no_result_text() -> Seq<char> {
    "无结果返回，请确认搜索关键字"@
}

/// The query that a search runs: the given one, or what is in the query box.
pub open spec fn effective_query(input: Seq<char>, given: Option<Seq<char>>) -> Seq<char> {
    match given {
        Some(query) => query,
        None => input,
    }
}

/// The mode whose reader reads the page of a request.
pub open spec fn request_mode(request: RequestView) -> SearchMode {
    match request {
        RequestView::Volume(_) => SearchMode::Volume,
        RequestView::Category(_, _) => SearchMode::Category,
        _ => SearchMode::Normal,
    }
}

/// The category that a request asks for, if it asks for one.
pub open spec fn request_category(request: RequestView) -> Option<Category> {
    match request {
        RequestView::Category(category, _) => Some(category),
        _ => None,
    }
}

/// The page number shown after a search: for an issue search the requested issue, held
/// between 1 and the number of the newest issue; for a category search 1 where the category
/// changed, else the number on show; for a text search 1.
pub open spec fn page_after_search(
    request: RequestView,
    shown: nat,
    category: Option<Category>,
    max_volume: nat,
) -> nat {
    match request {
        RequestView::Volume(volume) => clamp_page(volume, max_volume),
        RequestView::Category(wanted, _) => if category is Some && category->0 != wanted {
            1
        } else {
            at_least_one(shown)
        },
        _ => 1,
    }
}

/// The page number shown after a change of page: for an issue the issue, held between 1
/// and the number of the newest issue; for a page of a category that page, held at 1 or
/// above.
pub open spec fn requested_page(request: RequestView, max_volume: nat) -> nat {
    match request {
        RequestView::Volume(volume) => clamp_page(volume, max_volume),
        RequestView::Category(_, page_no) => at_least_one(page_no),
        _ => 1,
    }
}

/// The page that a change to page `page_no` asks for. Page 0 is page 1. In issue mode it
/// is the issue of that number, or the newest one where the number is higher; in category
/// mode that page of the category on show, and nothing where no category is on show; a
/// text search has no pages.
pub open spec fn page_request(
    mode: SearchMode,
    category: Option<Category>,
    page_no: nat,
    max_volume: nat,
) -> Option<RequestView> {
    match mode {
        SearchMode::Volume => Some(RequestView::Volume(clamp_page(page_no, max_volume))),
        SearchMode::Category => match category {
            Some(c) => Some(RequestView::Category(c, at_least_one(page_no))),
            None => None,
        },
        SearchMode::Normal => None,
    }
}

/// The screen once the result table has the keyboard; the table gets a cursor if it has
/// rows and none is selected.
pub open spec fn focus_table(s: Screen) -> Screen {
    Screen {
        mode: AppMode::View,
        query_active: false,
        table_active: true,
        cursor: if s.cursor is None && s.projects.len() > 0 {
            Some(0nat)
        } else {
            s.cursor
        },
        ..s
    }
}

/// The screen once the query box has the keyboard.
pub open spec fn focus_query(s: Screen) -> Screen {
    Screen { mode: AppMode::Search, query_active: true, table_active: false, ..s }
}

/// The screen once the message window is open on a message.
pub open spec fn with_message(s: Screen, message: MessageView) -> Screen {
    Screen { mode: AppMode::Popup, message, ..s }
}

/// Whether a search has nothing to do: no query is given and the query box is empty.
pub open spec fn search_idle(s: Screen, given: Option<Seq<char>>) -> bool {
    given is None && s.query.len() == 0
}

/// The screen after the first step of a search: the query box is empty where the query
/// was taken from it.
pub open spec fn search_begun(s: Screen, given: Option<Seq<char>>) -> Screen {
    if given is None {
        Screen { query: Seq::empty(), ..s }
    } else {
        s
    }
}

/// The page that a search asks for; nothing where the search has nothing to do.
pub open spec fn search_wanted(s: Screen, given: Option<Seq<char>>) -> Result<
    Option<RequestView>,
    Error,
> {
    if search_idle(s, given) {
        Ok(None)
    } else {
        match request_of(effective_query(s.query, given), s.query_mode, s.max_volume) {
            Ok(request) => Ok(Some(request)),
            Err(e) => Err(e),
        }
    }
}

/// The screen after the second step of a search. A page that cannot be read or holds no
/// project leaves the screen as it is. Else the projects replace those on show, the cursor
/// is on the first of them, the table has the keyboard, and the page number and the
/// category on show follow the request.
pub open spec fn results_shown(s: Screen, request: RequestView, page: crate::parse::Page) -> Screen {
    match page {
        Err(_) => s,
        Ok((projects, _)) => if projects.len() == 0 {
            s
        } else {
            Screen {
                projects,
                cursor: Some(0nat),
                table_active: true,
                query_active: false,
                mode: AppMode::View,
                category: request_category(request),
                page_no: page_after_search(request, s.page_no, s.category, s.max_volume),
                ..s
            }
        },
    }
}

/// What the second step of a search returns: the failure of the page, a warning for a page
/// without projects, else nothing.
pub open spec fn results_answer(page: crate::parse::Page) -> Result<Option<MessageView>, Error> {
    match page {
        Err(e) => Err(e),
        Ok((projects, _)) => if projects.len() == 0 {
            Ok(Some(MessageView::Warn(no_result_text())))
        } else {
            Ok(None)
        },
    }
}

/// The screen after the second step of a change of page. A page that cannot be read leaves
/// the screen as it is. Else its projects replace those on show, the cursor is on the first
/// of them, and the requested page number is shown.
pub open spec fn page_turned(s: Screen, request: RequestView, page: crate::parse::Page) -> Screen {
    match page {
        Err(_) => s,
        Ok((projects, _)) => Screen {
            projects,
            cursor: if projects.len() == 0 {
                None::<nat>
            } else {
                Some(0nat)
            },
            page_no: requested_page(request, s.max_volume),
            ..s
        },
    }
}

/// The detail page of a project.
pub open spec fn detail_of(p: ProjectView) -> DetailView {
    DetailView {
        name: p.name,
        url: p.url,
        star: p.star,
        watch: p.watch,
        fork: p.fork,
        desc: p.desc,
        category: colour_category(p.category),
    }
}

/// The screen once the detail page of the selected project is open.
pub open spec fn detail_opened(s: Screen) -> Screen
    recommends
        s.cursor is Some,
{
    Screen { mode: AppMode::Detail, detail: detail_of(s.projects[s.cursor->0 as int]), ..s }
}

/// The page number after the one on show.
pub open spec fn page_after(shown: nat) -> nat {
    if shown < usize::MAX {
        shown + 1
    } else {
        shown
    }
}

/// The page number before the one on show.
pub open spec fn page_before(shown: nat) -> nat {
    if shown > 0 {
        (shown - 1) as nat
    } else {
        0
    }
}

/// What an optional message holds.
pub open spec fn message_view(m: Option<Message>) -> Option<MessageView> {
    match m {
        Some(message) => Some(message@),
        None => None,
    }
}

/// What the second step of a search returns, as plain values.
pub open spec fn answer_view(r: Result<Option<Message>, Error>) -> Result<
    Option<MessageView>,
    Error,
> {
    match r {
        Ok(m) => Ok(message_view(m)),
        Err(e) => Err(e),
    }
}

/// What an optional request holds.
pub open spec fn wanted_view(r: Option<Request>) -> Option<RequestView> {
    match r {
        Some(request) => Some(request@),
        None => None,
    }
}

/// What the first step of a search returns.
pub open spec fn search_view(r: Result<Option<Request>, Error>) -> Result<
    Option<RequestView>,
    Error,
> {
    match r {
        Ok(wanted) => Ok(wanted_view(wanted)),
        Err(e) => Err(e),
    }
}

impl App {
    /// The state at start: the query box has the keyboard and nothing is on show.
    pub fn new(show_help: bool, max_volume: usize) -> (app: App)
        ensures
            app@.mode == AppMode::Search,
            app@.query.len() == 0,
            app@.query_active,
            app@.query_mode == SearchMode::Normal,
            app@.projects.len() == 0,
            app@.cursor is None,
            !app@.table_active,
            app@.message == MessageView::Error(Seq::<char>::empty()),
            app@.status_mode == SearchMode::Normal,
            app@.page_no == 1,
            app@.category is None,
            app@.show_help == show_help,
            app@.max_volume == max_volume,
            !app@.pending_g,
    {
        App {
            input: InputState::default(),
            content: ContentState::default(),
            popup: PopupState::default(),
            statusline: StatusLineState::default(),
            mode: AppMode::Search,
            curr_category: None,
            project_detail: ProjectDetailState::default(),
            show_help,
            max_volume,
            pending_g: false,
        }
    }

    /// The first step of a search. With no query given and an empty query box nothing
    /// happens. Else the query box is emptied where the query is taken from it, and the
    /// query is resolved in the mode of the query box.
    pub fn search(&mut self, wait_search: Option<String>) -> (r: Result<Option<Request>, Error>)
        ensures
            search_view(r) == search_wanted(old(self)@, text_view(wait_search)),
            final(self)@ == search_begun(old(self)@, text_view(wait_search)),
    {
        if self.input.is_empty() && wait_search.is_none() {
            assert(self@.query =~= Seq::<char>::empty());
            return Ok(None);
        }
        let search_mode = self.input.mode;
        let query = match wait_search {
            Some(query) => query,
            None => self.input.clear(),
        };
        match fetch(query, search_mode, self.max_volume) {
            Ok(request) => Ok(Some(request)),
            Err(e) => Err(e),
        }
    }

    /// The second step of a search: reads the fetched page. A page without projects leaves
    /// the screen as it is and returns a warning for the user. Else the projects replace
    /// those on show, the cursor goes to the first of them, the table takes the keyboard, and
    /// the page number and the category on show follow the request.
    pub fn show_results(&mut self, request: &Request, html: String) -> (r: Result<
        Option<Message>,
        Error,
    >)
        ensures
            answer_view(r) == results_answer(page_of(request_mode(request@), html@)),
            final(self)@ == results_shown(
                old(self)@,
                request@,
                page_of(request_mode(request@), html@),
            ),
    {
        let mode = match request {
            Request::Volume(_) => SearchMode::Volume,
            Request::Category(_, _) => SearchMode::Category,
            _ => SearchMode::Normal,
        };
        let (projects, _) = match parse_page(mode, html) {
            Ok(found) => found,
            Err(e) => {
                return Err(e);
            },
        };
        if projects.len() == 0 {
            return Ok(Some(Message::Warn("无结果返回，请确认搜索关键字".to_owned())));
        }
        let page_no = match request {
            Request::Volume(volume) => clamp_to_issue(*volume, self.max_volume),
            Request::Category(wanted, _) => {
                let changed = match self.curr_category {
                    Some(shown) => shown != *wanted,
                    None => false,
                };
                if changed || self.statusline.page_no() < 1 {
                    1
                } else {
                    self.statusline.page_no()
                }
            },
            _ => 1,
        };
        self.curr_category =
        match request {
            Request::Category(wanted, _) => Some(*wanted),
            _ => None,
        };
        self.statusline.page_no = page_no;
        self.content.add_projects(projects);
        self.switch_to_view();
        Ok(None)
    }

    /// Gives the keyboard to the result table.
    pub fn switch_to_view(&mut self)
        ensures
            final(self)@ == focus_table(old(self)@),
    {
        self.input.deactive();
        self.content.active();
        self.mode = AppMode::View;
    }

    /// Gives the keyboard to the query box.
    pub fn switch_to_search(&mut self)
        ensures
            final(self)@ == focus_query(old(self)@),
    {
        self.content.deactive();
        self.input.active();
        self.mode = AppMode::Search;
    }

    /// Puts a message in the message window and opens it.
    pub fn popup(&mut self, msg: Message)
        ensures
            final(self)@ == with_message(old(self)@, msg@),
    {
        self.popup.msg = msg;
        self.mode = AppMode::Popup;
    }

    /// The first step of a change of page: the page that page `page_no` is.
    pub fn page(&self, page_no: usize) -> (r: Option<Request>)
        ensures
            wanted_view(r) == page_request(
                self@.query_mode,
                self@.category,
                page_no as nat,
                self@.max_volume,
            ),
    {
        match self.input.mode {
            SearchMode::Volume => Some(Request::Volume(clamp_to_issue(page_no, self.max_volume))),
            SearchMode::Category => match self.curr_category {
                Some(category) => Some(
                    Request::Category(
                        category,
                        if page_no < 1 {
                            1
                        } else {
                            page_no
                        },
                    ),
                ),
                None => None,
            },
            SearchMode::Normal => None,
        }
    }

    /// The first step of a change to the next page.
    pub fn next_page(&self) -> (r: Option<Request>)
        ensures
            wanted_view(r) == page_request(
                self@.query_mode,
                self@.category,
                page_after(self@.page_no),
                self@.max_volume,
            ),
    {
        let shown = self.statusline.page_no();
        if shown < usize::MAX {
            self.page(shown + 1)
        } else {
            self.page(shown)
        }
    }

    /// The first step of a change to the previous page.
    pub fn prev_page(&self) -> (r: Option<Request>)
        ensures
            wanted_view(r) == page_request(
                self@.query_mode,
                self@.category,
                page_before(self@.page_no),
                self@.max_volume,
            ),
    {
        let shown = self.statusline.page_no();
        if shown > 0 {
            self.page(shown - 1)
        } else {
            self.page(0)
        }
    }

    /// The second step of a change of page: reads the fetched page, puts its projects on
    /// show with the cursor on the first of them, and shows the requested page number.
    pub fn turn_page(&mut self, request: &Request, html: String) -> (r: Result<(), Error>)
        ensures
            match page_of(request_mode(request@), html@) {
                Err(e) => r == Err::<(), Error>(e),
                Ok(_) => r is Ok,
            },
            final(self)@ == page_turned(
                old(self)@,
                request@,
                page_of(request_mode(request@), html@),
            ),
    {
        let mode = match request {
            Request::Volume(_) => SearchMode::Volume,
            Request::Category(_, _) => SearchMode::Category,
            _ => SearchMode::Normal,
        };
        let (projects, _) = match parse_page(mode, html) {
            Ok(found) => found,
            Err(e) => {
                return Err(e);
            },
        };
        let page_no = match request {
            Request::Volume(volume) => clamp_to_issue(*volume, self.max_volume),
            Request::Category(_, page_no) => if *page_no < 1 {
                1
            } else {
                *page_no
            },
            _ => 1,
        };
        self.content.add_projects(projects);
        self.statusline.page_no = page_no;
        Ok(())
    }

    /// Opens the detail page of the selected project.
    pub fn display_detail(&mut self)
        requires
            old(self)@.cursor is Some,
        ensures
            old(self)@.cursor->0 < old(self)@.projects.len(),
            final(self)@ == detail_opened(old(self)@),
    {
        self.mode = AppMode::Detail;
        let project = self.content.get_selected();
        self.project_detail = ProjectDetailState::from(project);
    }

    /// The address to open in the browser: the given one, or that of the selected project.
    pub fn open_browser(&self, url: Option<&str>) -> (address: String)
        requires
            self@.cursor is Some,
        ensures
            self@.cursor->0 < self@.projects.len(),
            address@ == match url {
                Some(given) => given@,
                None => self@.projects[self@.cursor->0 as int].url,
            },
    {
        let project = self.content.get_selected();
        match url {
            Some(given) => given.to_owned(),
            None => project.url,
        }
    }
}

/// Asking for an issue above the newest one is asking for the newest one, in a search
/// and in a change of page: the same page is asked for, so the same page is fetched and the
/// screen is the same once it is read. Asking for page 0 is asking for page 1, in every
/// mode.
pub proof fn lemma_clamp_laws(
    s: Screen,
    high: Seq<char>,
    newest: Seq<char>,
    volume: nat,
    mode: SearchMode,
)
    requires
        volume >= s.max_volume,
        crate::widget::statusline::query_number(high) == Some(volume),
        crate::widget::statusline::query_number(newest) == Some(s.max_volume),
    ensures
        request_of(high, SearchMode::Volume, s.max_volume) == request_of(
            newest,
            SearchMode::Volume,
            s.max_volume,
        ),
        page_request(SearchMode::Volume, s.category, volume, s.max_volume) == page_request(
            SearchMode::Volume,
            s.category,
            s.max_volume,
            s.max_volume,
        ),
        page_request(mode, s.category, 0, s.max_volume) == page_request(
            mode,
            s.category,
            1,
            s.max_volume,
        ),
{
}

/// What a finished search shows as page number. After an issue search it is the requested
/// issue held between 1 and the newest issue, whatever was shown before: where there is an
/// issue and the request names one, the smaller of the requested and the newest issue.
/// After a text search it is 1. The page has to hold a project.
pub proof fn lemma_page_shown_after_search(
    s: Screen,
    volume: nat,
    query: Seq<char>,
    page: crate::parse::Page,
)
    requires
        page is Ok,
        page->Ok_0.0.len() > 0,
    ensures
        results_shown(s, RequestView::Volume(volume), page).page_no == clamp_page(
            volume,
            s.max_volume,
        ),
        volume >= 1 && s.max_volume >= 1 ==> results_shown(
            s,
            RequestView::Volume(volume),
            page,
        ).page_no == if volume <= s.max_volume {
            volume
        } else {
            s.max_volume
        },
        results_shown(s, RequestView::Search(query), page).page_no == 1,
        results_shown(s, RequestView::Search(query), page).mode == AppMode::View,
        results_shown(s, RequestView::Search(query), page).cursor == Some(0nat),
        results_shown(s, RequestView::Search(query), page).projects == page->Ok_0.0,
        results_shown(s, RequestView::Volume(volume), page).category is None,
{
}

/// A query is resolved to a page of the family that its mode names.
pub proof fn lemma_request_matches_mode(text: Seq<char>, mode: SearchMode, max_volume: nat)
    ensures
        request_of(text, mode, max_volume) is Ok ==> request_mode(
            request_of(text, mode, max_volume)->Ok_0,
        ) == mode,
{
}

} // verus!
