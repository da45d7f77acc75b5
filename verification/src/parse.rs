//! The three page readers: search results, one issue of the digest, one category.
//!
//! A reader finds the nodes that head a project, collects a few texts around each and hands
//! them to the row builders. What a reader returns is stated as a function of the page's
//! text, over the names that the document module gives to the tree's answers.

use crate::dom::{
    attr_of, compile_selector, count_of, each_of, html_attr, html_is, html_markup, html_next,
    html_prev, html_select, html_select_in, html_text, markup_of, matcher_source,
    markup_room, matches_selector, next_sibling, prev_sibling, read_document, select_all,
    select_in, selection_nodes, selection_source, selector_accepted, text_of, PAGE_LIMIT,
};
use crate::error::Error;
use crate::mode::SearchMode;
use crate::pattern::{compile_pattern, pattern_accepted, regex_replaced, replace_all};
use crate::project::{project_views, Project, ProjectView};
use crate::text::{number_of, parse_number, split, split_on, to_chars, trim, trimmed, views};
use crate::rows::{
    category_project, category_row, description_markup, description_source, row_view,
    search_project, search_row, text_view, texts, volume_project, volume_row,
};
use vstd::prelude::*;
use vstd::string::StringExecFns;

verus! {

/// What kind of page was read last, with the page's own heading where it has one.
#[derive(Debug, Clone)]
pub enum LastParse {
    /// A page of search results.
    Search,
    /// An issue page, with its title.
    Volume(String),
    /// A category page, with its title.
    Category(String),
}

/// What a `LastParse` holds.
pub enum LastParseView {
    Search,
    Volume(Seq<char>),
    Category(Seq<char>),
}

impl View for LastParse {
    type V = LastParseView;

    open spec fn view(&self) -> LastParseView {
        match self {
            LastParse::Search => LastParseView::Search,
            LastParse::Volume(title) => LastParseView::Volume(title@),
            LastParse::Category(title) => LastParseView::Category(title@),
        }
    }
}

/// What a page holds: its projects in page order and the kind of page.
pub type Page = Result<(Seq<ProjectView>, LastParseView), Error>;

/// What the result of reading a page holds.
pub open spec fn parsed_view(r: Result<(Vec<Project>, LastParse), Error>) -> Page {
    match r {
        Ok((projects, last)) => Ok((project_views(projects@), last@)),
        Err(e) => Err(e),
    }
}

/// The records of a page's rows: rows without a link are left out, and the first failing
/// row fails the page.
pub open spec fn gather(rows: Seq<Result<Option<ProjectView>, Error>>) -> Result<
    Seq<ProjectView>,
    Error,
>
    decreases rows.len(),
{
    if rows.len() == 0 {
        Ok(Seq::empty())
    } else {
        match gather(rows.drop_last()) {
            Err(e) => Err(e),
            Ok(found) => match rows.last() {
                Err(e) => Err(e),
                Ok(None) => Ok(found),
                Ok(Some(p)) => Ok(found.push(p)),
            },
        }
    }
}

/// Once the rows up to some row fail, the page fails in the same way.
pub proof fn lemma_gather_fails(
    rows: Seq<Result<Option<ProjectView>, Error>>,
    k: int,
    e: Error,
)
    requires
        0 <= k <= rows.len(),
        gather(rows.subrange(0, k)) == Err::<Seq<ProjectView>, Error>(e),
    ensures
        gather(rows) == Err::<Seq<ProjectView>, Error>(e),
    decreases rows.len() - k,
{
    if k == rows.len() {
        assert(rows.subrange(0, k) =~= rows);
    } else {
        assert(rows.subrange(0, k + 1).drop_last() =~= rows.subrange(0, k));
        lemma_gather_fails(rows, k + 1, e);
    }
}

/// The pattern that matches one tag.
pub open spec fn tag_pattern() -> Seq<char> {
    "<.*?>"@
}

/// The description held by a paragraph's markup: the part behind the first line break with
/// its tags taken out. It fails where the paragraph has no line break.
pub open spec fn description_of(markup: Seq<char>) -> Result<Seq<char>, Error> {
    match description_markup(markup) {
        None => Err(Error::ParseContractViolation),
        Some(source) => if pattern_accepted(tag_pattern()) {
            Ok(regex_replaced(tag_pattern(), source, ""@))
        } else {
            Err(Error::ParseContractViolation)
        },
    }
}

/// The text of `nodes` and their descendants, joined in the order of the nodes.
pub open spec fn joined_text(html: Seq<char>, nodes: Seq<int>) -> Seq<char>
    decreases nodes.len(),
{
    if nodes.len() == 0 {
        Seq::empty()
    } else {
        joined_text(html, nodes.drop_last()) + html_text(html, seq![nodes.last()])
    }
}

/// Whether the markup of `nodes` is short enough to be written out: the nodes below them,
/// counted by the selector `*`, leave room on a page of this length.
pub open spec fn markup_fits(html: Seq<char>, nodes: Seq<int>) -> bool {
    html_select_in(html, nodes, "*"@).len() + 3 <= markup_room(html.len())
}

/// The description held by the paragraph `body`. It fails where the paragraph holds too
/// many nodes for its markup to be written out.
pub open spec fn paragraph_description(html: Seq<char>, body: Seq<int>) -> Result<
    Seq<char>,
    Error,
> {
    if markup_fits(html, body) {
        description_of(html_markup(html, body))
    } else {
        Err(Error::ParseContractViolation)
    }
}

/// The text of each of `nodes`, one by one.
pub open spec fn node_texts(html: Seq<char>, nodes: Seq<int>) -> Seq<Seq<char>> {
    Seq::new(nodes.len(), |k: int| html_text(html, seq![nodes[k]]))
}

/// The text of the nearest heading at or before `nodes` among their element siblings,
/// looking back at most `fuel` siblings.
pub open spec fn heading_before(html: Seq<char>, nodes: Seq<int>, fuel: nat) -> Option<Seq<char>>
    decreases fuel,
{
    if nodes.len() == 0 {
        None
    } else if html_is(html, nodes, "h2"@) {
        Some(joined_text(html, nodes))
    } else if fuel == 0 {
        None
    } else {
        heading_before(html, html_prev(html, nodes), (fuel - 1) as nat)
    }
}

/// The nodes reached from `nodes` by `steps` steps to the element sibling before.
pub open spec fn looked_back(html: Seq<char>, nodes: Seq<int>, steps: nat) -> Seq<int>
    decreases steps,
{
    if steps == 0 {
        nodes
    } else {
        looked_back(html, html_prev(html, nodes), (steps - 1) as nat)
    }
}

/// The category of an entry is the text of the nearest heading at or before it: where
/// the sibling `steps` steps back is a heading, no sibling nearer than that is one, and the
/// search may look that far, the search finds the text of just that sibling.
pub proof fn lemma_nearest_heading(html: Seq<char>, nodes: Seq<int>, steps: nat, fuel: nat)
    requires
        steps <= fuel,
        forall|j: nat|
            j < steps ==> (#[trigger] looked_back(html, nodes, j)).len() > 0 && !html_is(
                html,
                looked_back(html, nodes, j),
                "h2"@,
            ),
        looked_back(html, nodes, steps).len() > 0,
        html_is(html, looked_back(html, nodes, steps), "h2"@),
    ensures
        heading_before(html, nodes, fuel) == Some(
            joined_text(html, looked_back(html, nodes, steps)),
        ),
    decreases steps,
{
    if steps > 0 {
        assert(looked_back(html, nodes, 0) == nodes);
        let before = html_prev(html, nodes);
        assert forall|j: nat| j < steps - 1 implies (#[trigger] looked_back(
            html,
            before,
            j,
        )).len() > 0 && !html_is(html, looked_back(html, before, j), "h2"@) by {
            assert(looked_back(html, nodes, j + 1) == looked_back(html, before, j));
        }
        lemma_nearest_heading(html, before, (steps - 1) as nat, (fuel - 1) as nat);
    }
}

/// What comes of the search result headed by node `head`.
pub open spec fn search_entry(html: Seq<char>, head: int) -> Result<Option<ProjectView>, Error> {
    let here = seq![head];
    let link = html_select_in(html, here, ".project-url"@);
    let body = html_next(html, here);
    let origin = html_next(html, body);
    search_row(
        joined_text(html, link),
        html_attr(html, link, "href"@),
        joined_text(html, body),
        joined_text(html, origin),
    )
}

/// What a page of search results holds. A page longer than the limit is not read.
pub open spec fn search_page(html: Seq<char>) -> Page {
    if html.len() > PAGE_LIMIT || !selector_accepted(".content-subhead"@) || !selector_accepted(
        ".project-url"@,
    ) {
        Err(Error::ParseContractViolation)
    } else {
        let heads = html_select(html, ".content-subhead"@);
        match gather(Seq::new(heads.len(), |k: int| search_entry(html, heads[k]))) {
            Ok(projects) => Ok((projects, LastParseView::Search)),
            Err(e) => Err(e),
        }
    }
}

/// What comes of the entry of a category page headed by node `head`.
pub open spec fn category_entry(html: Seq<char>, head: int, category: Seq<char>) -> Result<
    Option<ProjectView>,
    Error,
> {
    let here = seq![head];
    let link = html_select_in(html, here, "a.project-url"@);
    let body = html_next(html, here);
    match html_attr(html, link, "href"@) {
        None => Ok(None),
        Some(href) => match paragraph_description(html, body) {
            Err(e) => Err(e),
            Ok(desc) => category_row(
                joined_text(html, link),
                Some(href),
                node_texts(html, html_select_in(html, body, "i.fa"@)),
                desc,
                category,
            ),
        },
    }
}

/// What a category page holds. Its top heading names the category of every project. A
/// page longer than the limit is not read.
pub open spec fn category_page(html: Seq<char>) -> Page {
    if html.len() > PAGE_LIMIT || !selector_accepted("h1"@) || !selector_accepted(
        "h2.content-subhead"@,
    ) || !selector_accepted("a.project-url"@) || !selector_accepted("i.fa"@)
        || !selector_accepted("*"@) {
        Err(Error::ParseContractViolation)
    } else {
        let category = joined_text(html, html_select(html, "h1"@));
        let heads = html_select(html, "h2.content-subhead"@);
        match gather(Seq::new(heads.len(), |k: int| category_entry(html, heads[k], category))) {
            Ok(projects) => Ok((projects, LastParseView::Category(category))),
            Err(e) => Err(e),
        }
    }
}

/// What comes of the entry of an issue page that starts at the anchor `anchor`. Its link is
/// the second element after the anchor, its paragraph the fourth after the link, and its
/// category the nearest heading before the anchor.
pub open spec fn volume_entry(html: Seq<char>, anchor: int, title: Seq<char>, fuel: nat) -> Result<
    Option<ProjectView>,
    Error,
> {
    let here = seq![anchor];
    let link = html_next(html, html_next(html, here));
    let body = html_next(html, html_next(html, html_next(html, html_next(html, link))));
    match html_attr(html, link, "href"@) {
        None => Ok(None),
        Some(href) => match heading_before(html, here, fuel) {
            None => Err(Error::ParseContractViolation),
            Some(category) => match paragraph_description(html, body) {
                Err(e) => Err(e),
                Ok(desc) => volume_row(
                    html_attr(html, here, "id"@),
                    Some(href),
                    node_texts(html, html_select_in(html, body, "i.fa"@)),
                    desc,
                    title,
                    category,
                ),
            },
        },
    }
}

/// What an issue page holds. Its top heading names the issue of every project; the search
/// for a category heading looks back over no more siblings than the page has nodes. A page
/// longer than the limit is not read.
pub open spec fn volume_page(html: Seq<char>) -> Page {
    if html.len() > PAGE_LIMIT || !selector_accepted("h1"@) || !selector_accepted(
        "a.project-index"@,
    ) || !selector_accepted("i.fa"@) || !selector_accepted("h2"@) || !selector_accepted("*"@) {
        Err(Error::ParseContractViolation)
    } else {
        let title = joined_text(html, html_select(html, "h1"@));
        let anchors = html_select(html, "a.project-index"@);
        let fuel = html_select(html, "*"@).len();
        match gather(Seq::new(anchors.len(), |k: int| volume_entry(html, anchors[k], title, fuel))) {
            Ok(projects) => Ok((projects, LastParseView::Volume(title))),
            Err(e) => Err(e),
        }
    }
}

/// Compiles a selector of this library.
fn selector(css: &str) -> (r: Result<nipper::Matcher, Error>)
    ensures
        r is Ok <==> selector_accepted(css@),
        r is Ok ==> matcher_source(r->Ok_0) == css@,
        r is Err ==> r->Err_0 == Error::ParseContractViolation,
{
    match compile_selector(css) {
        Some(m) => Ok(m),
        None => Err(Error::ParseContractViolation),
    }
}

/// The text of all nodes of a selection, joined in order.
fn text_all(sel: &nipper::Selection) -> (text: String)
    requires
        selection_source(*sel).len() <= PAGE_LIMIT,
    ensures
        text@ == joined_text(selection_source(*sel), selection_nodes(*sel)),
{
    let items = each_of(sel);
    let ghost html = selection_source(*sel);
    let ghost nodes = selection_nodes(*sel);
    let mut text = String::new();
    let mut i: usize = 0;
    assert(nodes.subrange(0, 0) =~= Seq::<int>::empty());
    while i < items.len()
        invariant
            i <= items.len() == nodes.len(),
            html.len() <= PAGE_LIMIT,
            forall|k: int|
                0 <= k < items.len() ==> selection_source(#[trigger] items[k]) == html
                    && selection_nodes(items[k]) == seq![nodes[k]],
            text@ == joined_text(html, nodes.subrange(0, i as int)),
        decreases items.len() - i,
    {
        let piece = text_of(&items[i]);
        assert(nodes.subrange(0, i as int + 1).drop_last() =~= nodes.subrange(0, i as int));
        text.append(piece.as_str());
        i = i + 1;
    }
    assert(nodes.subrange(0, nodes.len() as int) =~= nodes);
    text
}

/// Reads the description out of a paragraph of a page of `page_len` characters.
fn get_desc(p: &nipper::Selection, any: &nipper::Matcher, page_len: usize) -> (r: Result<
    String,
    Error,
>)
    requires
        matcher_source(*any) == "*"@,
        selection_source(*p).len() == page_len,
        page_len <= PAGE_LIMIT,
    ensures
        match paragraph_description(selection_source(*p), selection_nodes(*p)) {
            Ok(desc) => r is Ok && r->Ok_0@ == desc,
            Err(e) => r == Err::<String, Error>(e),
        },
{
    let below: usize = count_of(&select_in(p, any));
    let room: usize = 0x4000_0000 / (32 * page_len + 32);
    if room < 3 || below > room - 3 {
        return Err(Error::ParseContractViolation);
    }
    let markup = markup_of(p);
    let source = match description_source(markup.as_str()) {
        Some(source) => source,
        None => {
            return Err(Error::ParseContractViolation);
        },
    };
    match compile_pattern("<.*?>") {
        Some(re) => Ok(replace_all(&re, source.as_str(), "")),
        None => Err(Error::ParseContractViolation),
    }
}

/// Collects the text of each badge icon below a paragraph.
fn badges_of(p: &nipper::Selection, icon: &nipper::Matcher) -> (badges: Vec<String>)
    requires
        selection_source(*p).len() <= PAGE_LIMIT,
    ensures
        texts(badges@) == node_texts(
            selection_source(*p),
            html_select_in(selection_source(*p), selection_nodes(*p), matcher_source(*icon)),
        ),
{
    let icons = select_in(p, icon);
    let items = each_of(&icons);
    let ghost html = selection_source(*p);
    let ghost nodes = selection_nodes(icons);
    let mut badges: Vec<String> = Vec::new();
    let mut i: usize = 0;
    while i < items.len()
        invariant
            i <= items.len() == nodes.len(),
            html.len() <= PAGE_LIMIT,
            forall|k: int|
                0 <= k < items.len() ==> selection_source(#[trigger] items[k]) == html
                    && selection_nodes(items[k]) == seq![nodes[k]],
            badges.len() == i,
            forall|k: int| 0 <= k < i ==> (#[trigger] badges[k])@ == html_text(html, seq![nodes[k]]),
        decreases items.len() - i,
    {
        let text = text_of(&items[i]);
        badges.push(text);
        i = i + 1;
    }
    assert(texts(badges@) =~= node_texts(html, nodes));
    badges
}

/// Finds the category heading that an entry of an issue page stands under: the nearest
/// heading among the element siblings before it.
fn find_category(pi: &nipper::Selection, heading: &nipper::Matcher, fuel: usize) -> (r: Option<
    String,
>)
    requires
        matcher_source(*heading) == "h2"@,
        selection_source(*pi).len() <= PAGE_LIMIT,
    ensures
        text_view(r) == heading_before(
            selection_source(*pi),
            selection_nodes(*pi),
            fuel as nat,
        ),
{
    let ghost html = selection_source(*pi);
    if count_of(pi) == 0 {
        return None;
    }
    if matches_selector(pi, heading) {
        return Some(text_all(pi));
    }
    if fuel == 0 {
        return None;
    }
    let mut left: usize = fuel - 1;
    let mut cur = prev_sibling(pi);
    loop
        invariant
            matcher_source(*heading) == "h2"@,
            html == selection_source(*pi),
            html.len() <= PAGE_LIMIT,
            selection_source(cur) == html,
            heading_before(html, selection_nodes(cur), left as nat) == heading_before(
                html,
                selection_nodes(*pi),
                fuel as nat,
            ),
        decreases left,
    {
        if count_of(&cur) == 0 {
            return None;
        }
        if matches_selector(&cur, heading) {
            return Some(text_all(&cur));
        }
        if left == 0 {
            return None;
        }
        left = left - 1;
        cur = prev_sibling(&cur);
    }
}

/// Reads the search result under one heading.
fn search_entry_of(head: &nipper::Selection, link: &nipper::Matcher) -> (row: Result<
    Option<Project>,
    Error,
>)
    requires
        selection_nodes(*head).len() == 1,
        selection_source(*head).len() <= PAGE_LIMIT,
        matcher_source(*link) == ".project-url"@,
    ensures
        row_view(row) == search_entry(selection_source(*head), selection_nodes(*head)[0]),
{
    assert(selection_nodes(*head) =~= seq![selection_nodes(*head)[0]]);
    let a = select_in(head, link);
    let name = text_all(&a);
    let href = attr_of(&a, "href");
    let p = next_sibling(head);
    let body = text_all(&p);
    let span = next_sibling(&p);
    let origin = text_all(&span);
    search_project(name.as_str(), href, body.as_str(), origin.as_str())
}

/// Reads the entry of a category page under one heading.
fn category_entry_of(
    head: &nipper::Selection,
    link: &nipper::Matcher,
    icon: &nipper::Matcher,
    any: &nipper::Matcher,
    category: &str,
    page_len: usize,
) -> (row: Result<Option<Project>, Error>)
    requires
        selection_nodes(*head).len() == 1,
        selection_source(*head).len() == page_len,
        page_len <= PAGE_LIMIT,
        matcher_source(*link) == "a.project-url"@,
        matcher_source(*icon) == "i.fa"@,
        matcher_source(*any) == "*"@,
    ensures
        row_view(row) == category_entry(
            selection_source(*head),
            selection_nodes(*head)[0],
            category@,
        ),
{
    assert(selection_nodes(*head) =~= seq![selection_nodes(*head)[0]]);
    let a = select_in(head, link);
    let href = attr_of(&a, "href");
    if href.is_none() {
        return Ok(None);
    }
    let name = text_all(&a);
    let p = next_sibling(head);
    let desc = match get_desc(&p, any, page_len) {
        Ok(desc) => desc,
        Err(e) => {
            return Err(e);
        },
    };
    let badges = badges_of(&p, icon);
    category_project(name.as_str(), href, &badges, desc.as_str(), category)
}

/// Reads the entry of an issue page that starts at one anchor.
fn volume_entry_of(
    pi: &nipper::Selection,
    icon: &nipper::Matcher,
    heading: &nipper::Matcher,
    any: &nipper::Matcher,
    title: &str,
    fuel: usize,
    page_len: usize,
) -> (row: Result<Option<Project>, Error>)
    requires
        selection_nodes(*pi).len() == 1,
        selection_source(*pi).len() == page_len,
        page_len <= PAGE_LIMIT,
        matcher_source(*icon) == "i.fa"@,
        matcher_source(*heading) == "h2"@,
        matcher_source(*any) == "*"@,
    ensures
        row_view(row) == volume_entry(
            selection_source(*pi),
            selection_nodes(*pi)[0],
            title@,
            fuel as nat,
        ),
{
    assert(selection_nodes(*pi) =~= seq![selection_nodes(*pi)[0]]);
    let a = next_sibling(&next_sibling(pi));
    let href = attr_of(&a, "href");
    if href.is_none() {
        return Ok(None);
    }
    let category = match find_category(pi, heading, fuel) {
        Some(category) => category,
        None => {
            return Err(Error::ParseContractViolation);
        },
    };
    let p = next_sibling(&next_sibling(&next_sibling(&next_sibling(&a))));
    let desc = match get_desc(&p, any, page_len) {
        Ok(desc) => desc,
        Err(e) => {
            return Err(e);
        },
    };
    let name = attr_of(pi, "id");
    let badges = badges_of(&p, icon);
    volume_project(name, href, &badges, desc.as_str(), title, category.as_str())
}

/// A reader of one kind of page.
pub trait Parser: Sync + Send {
    /// What a page of this reader's kind holds.
    spec fn page(&self, html: Seq<char>) -> Page;

    /// Reads the projects off a page.
    fn parse(&self, html: String) -> (r: Result<(Vec<Project>, LastParse), Error>)
        ensures
            parsed_view(r) == self.page(html@),
    ;
}

/// The reader of search results.
pub struct NormalParser;

/// The reader of category pages.
pub struct CategoryParser;

/// The reader of issue pages.
pub struct VolumeParser;

impl Parser for NormalParser {
    open spec fn page(&self, html: Seq<char>) -> Page {
        search_page(html)
    }

    fn parse(&self, html: String) -> (r: Result<(Vec<Project>, LastParse), Error>) {
        let page_len: usize = html.as_str().unicode_len();
        if page_len > PAGE_LIMIT {
            return Err(Error::ParseContractViolation);
        }
        let m_head = match selector(".content-subhead") {
            Ok(m) => m,
            Err(e) => {
                return Err(e);
            },
        };
        let m_link = match selector(".project-url") {
            Ok(m) => m,
            Err(e) => {
                return Err(e);
            },
        };
        let doc = read_document(html.as_str());
        let heads = select_all(&doc, &m_head);
        let items = each_of(&heads);
        let ghost nodes = selection_nodes(heads);
        let ghost rows = Seq::new(nodes.len(), |k: int| search_entry(html@, nodes[k]));
        let mut out: Vec<Project> = Vec::new();
        let mut i: usize = 0;
        assert(project_views(out@) =~= Seq::<ProjectView>::empty());
        assert(rows.subrange(0, 0) =~= Seq::empty());
        while i < items.len()
            invariant
                i <= items.len() == nodes.len(),
                forall|k: int|
                    0 <= k < items.len() ==> selection_source(#[trigger] items[k]) == html@
                        && selection_nodes(items[k]) == seq![nodes[k]],
                matcher_source(m_link) == ".project-url"@,
                html@.len() <= PAGE_LIMIT,
                rows == Seq::new(nodes.len(), |k: int| search_entry(html@, nodes[k])),
                gather(rows.subrange(0, i as int)) == Ok::<Seq<ProjectView>, Error>(
                    project_views(out@),
                ),
                selector_accepted(".content-subhead"@),
                selector_accepted(".project-url"@),
                nodes == html_select(html@, ".content-subhead"@),
            decreases items.len() - i,
        {
            let row = search_entry_of(&items[i], &m_link);
            assert(row_view(row) == rows[i as int]);
            assert(rows.subrange(0, i as int + 1).drop_last() =~= rows.subrange(0, i as int));
            match row {
                Err(e) => {
                    proof {
                        lemma_gather_fails(rows, i as int + 1, e);
                    }
                    return Err(e);
                },
                Ok(None) => {},
                Ok(Some(p)) => {
                    let ghost before = out@;
                    out.push(p);
                    assert(project_views(out@) =~= project_views(before).push(p@));
                },
            }
            i = i + 1;
        }
        assert(rows.subrange(0, items.len() as int) =~= rows);
        Ok((out, LastParse::Search))
    }
}

impl Parser for CategoryParser {
    open spec fn page(&self, html: Seq<char>) -> Page {
        category_page(html)
    }

    fn parse(&self, html: String) -> (r: Result<(Vec<Project>, LastParse), Error>) {
        let page_len: usize = html.as_str().unicode_len();
        if page_len > PAGE_LIMIT {
            return Err(Error::ParseContractViolation);
        }
        let m_title = match selector("h1") {
            Ok(m) => m,
            Err(e) => {
                return Err(e);
            },
        };
        let m_head = match selector("h2.content-subhead") {
            Ok(m) => m,
            Err(e) => {
                return Err(e);
            },
        };
        let m_link = match selector("a.project-url") {
            Ok(m) => m,
            Err(e) => {
                return Err(e);
            },
        };
        let m_icon = match selector("i.fa") {
            Ok(m) => m,
            Err(e) => {
                return Err(e);
            },
        };
        let m_any = match selector("*") {
            Ok(m) => m,
            Err(e) => {
                return Err(e);
            },
        };
        let doc = read_document(html.as_str());
        let category = text_all(&select_all(&doc, &m_title));
        let heads = select_all(&doc, &m_head);
        let items = each_of(&heads);
        let ghost nodes = selection_nodes(heads);
        let ghost rows = Seq::new(nodes.len(), |k: int| category_entry(html@, nodes[k], category@));
        let mut out: Vec<Project> = Vec::new();
        let mut i: usize = 0;
        assert(project_views(out@) =~= Seq::<ProjectView>::empty());
        assert(rows.subrange(0, 0) =~= Seq::empty());
        while i < items.len()
            invariant
                i <= items.len() == nodes.len(),
                forall|k: int|
                    0 <= k < items.len() ==> selection_source(#[trigger] items[k]) == html@
                        && selection_nodes(items[k]) == seq![nodes[k]],
                matcher_source(m_link) == "a.project-url"@,
                matcher_source(m_icon) == "i.fa"@,
                matcher_source(m_any) == "*"@,
                page_len == html@.len(),
                page_len <= PAGE_LIMIT,
                rows == Seq::new(nodes.len(), |k: int| category_entry(html@, nodes[k], category@)),
                gather(rows.subrange(0, i as int)) == Ok::<Seq<ProjectView>, Error>(
                    project_views(out@),
                ),
                selector_accepted("h1"@),
                selector_accepted("h2.content-subhead"@),
                selector_accepted("a.project-url"@),
                selector_accepted("i.fa"@),
                selector_accepted("*"@),
                category@ == joined_text(html@, html_select(html@, "h1"@)),
                nodes == html_select(html@, "h2.content-subhead"@),
            decreases items.len() - i,
        {
            let row = category_entry_of(
                &items[i],
                &m_link,
                &m_icon,
                &m_any,
                category.as_str(),
                page_len,
            );
            assert(row_view(row) == rows[i as int]);
            assert(rows.subrange(0, i as int + 1).drop_last() =~= rows.subrange(0, i as int));
            match row {
                Err(e) => {
                    proof {
                        lemma_gather_fails(rows, i as int + 1, e);
                    }
                    return Err(e);
                },
                Ok(None) => {},
                Ok(Some(p)) => {
                    let ghost before = out@;
                    out.push(p);
                    assert(project_views(out@) =~= project_views(before).push(p@));
                },
            }
            i = i + 1;
        }
        assert(rows.subrange(0, items.len() as int) =~= rows);
        Ok((out, LastParse::Category(category)))
    }
}

impl Parser for VolumeParser {
    open spec fn page(&self, html: Seq<char>) -> Page {
        volume_page(html)
    }

    fn parse(&self, html: String) -> (r: Result<(Vec<Project>, LastParse), Error>) {
        let page_len: usize = html.as_str().unicode_len();
        if page_len > PAGE_LIMIT {
            return Err(Error::ParseContractViolation);
        }
        let m_title = match selector("h1") {
            Ok(m) => m,
            Err(e) => {
                return Err(e);
            },
        };
        let m_anchor = match selector("a.project-index") {
            Ok(m) => m,
            Err(e) => {
                return Err(e);
            },
        };
        let m_icon = match selector("i.fa") {
            Ok(m) => m,
            Err(e) => {
                return Err(e);
            },
        };
        let m_heading = match selector("h2") {
            Ok(m) => m,
            Err(e) => {
                return Err(e);
            },
        };
        let m_any = match selector("*") {
            Ok(m) => m,
            Err(e) => {
                return Err(e);
            },
        };
        let doc = read_document(html.as_str());
        let title = text_all(&select_all(&doc, &m_title));
        let fuel = count_of(&select_all(&doc, &m_any));
        let anchors = select_all(&doc, &m_anchor);
        let items = each_of(&anchors);
        let ghost nodes = selection_nodes(anchors);
        let ghost rows = Seq::new(
            nodes.len(),
            |k: int| volume_entry(html@, nodes[k], title@, fuel as nat),
        );
        let mut out: Vec<Project> = Vec::new();
        let mut i: usize = 0;
        assert(project_views(out@) =~= Seq::<ProjectView>::empty());
        assert(rows.subrange(0, 0) =~= Seq::empty());
        while i < items.len()
            invariant
                i <= items.len() == nodes.len(),
                forall|k: int|
                    0 <= k < items.len() ==> selection_source(#[trigger] items[k]) == html@
                        && selection_nodes(items[k]) == seq![nodes[k]],
                matcher_source(m_icon) == "i.fa"@,
                matcher_source(m_heading) == "h2"@,
                matcher_source(m_any) == "*"@,
                page_len == html@.len(),
                page_len <= PAGE_LIMIT,
                rows == Seq::new(
                    nodes.len(),
                    |k: int| volume_entry(html@, nodes[k], title@, fuel as nat),
                ),
                gather(rows.subrange(0, i as int)) == Ok::<Seq<ProjectView>, Error>(
                    project_views(out@),
                ),
                selector_accepted("h1"@),
                selector_accepted("a.project-index"@),
                selector_accepted("i.fa"@),
                selector_accepted("h2"@),
                selector_accepted("*"@),
                title@ == joined_text(html@, html_select(html@, "h1"@)),
                fuel == html_select(html@, "*"@).len(),
                nodes == html_select(html@, "a.project-index"@),
            decreases items.len() - i,
        {
            let row = volume_entry_of(
                &items[i],
                &m_icon,
                &m_heading,
                &m_any,
                title.as_str(),
                fuel,
                page_len,
            );
            assert(row_view(row) == rows[i as int]);
            assert(rows.subrange(0, i as int + 1).drop_last() =~= rows.subrange(0, i as int));
            match row {
                Err(e) => {
                    proof {
                        lemma_gather_fails(rows, i as int + 1, e);
                    }
                    return Err(e);
                },
                Ok(None) => {},
                Ok(Some(p)) => {
                    let ghost before = out@;
                    out.push(p);
                    assert(project_views(out@) =~= project_views(before).push(p@));
                },
            }
            i = i + 1;
        }
        assert(rows.subrange(0, items.len() as int) =~= rows);
        Ok((out, LastParse::Volume(title)))
    }
}

/// What a page holds when it is read as a page of the given mode.
pub open spec fn page_of(mode: SearchMode, html: Seq<char>) -> Page {
    match mode {
        SearchMode::Normal => search_page(html),
        SearchMode::Volume => volume_page(html),
        SearchMode::Category => category_page(html),
    }
}

/// Reads a page with the reader that belongs to a search mode.
pub fn parse_page(mode: SearchMode, html: String) -> (r: Result<(Vec<Project>, LastParse), Error>)
    ensures
        parsed_view(r) == page_of(mode, html@),
{
    match mode {
        SearchMode::Normal => NormalParser.parse(html),
        SearchMode::Volume => VolumeParser.parse(html),
        SearchMode::Category => CategoryParser.parse(html),
    }
}

/// Reading the same page twice gives the same projects and the same kind of page.
pub proof fn lemma_parse_repeatable(
    mode: SearchMode,
    html: Seq<char>,
    first: Result<(Vec<Project>, LastParse), Error>,
    second: Result<(Vec<Project>, LastParse), Error>,
)
    requires
        parsed_view(first) == page_of(mode, html),
        parsed_view(second) == page_of(mode, html),
    ensures
        parsed_view(first) == parsed_view(second),
{
}

/// The site's own star counter, as the landing page shows it.
pub open spec fn star_counter(html: Seq<char>) -> Result<Seq<char>, Error> {
    if html.len() <= PAGE_LIMIT && selector_accepted("#repo-stars-counter-unstar"@) {
        Ok(joined_text(html, html_select(html, "#repo-stars-counter-unstar"@)))
    } else {
        Err(Error::ParseContractViolation)
    }
}

/// Reads the site's own star counter off the landing page.
pub fn parse_hg_star(html: String) -> (r: Result<String, Error>)
    ensures
        match star_counter(html@) {
            Ok(text) => r is Ok && r->Ok_0@ == text,
            Err(e) => r == Err::<String, Error>(e),
        },
{
    if html.as_str().unicode_len() > PAGE_LIMIT {
        return Err(Error::ParseContractViolation);
    }
    let m = match selector("#repo-stars-counter-unstar") {
        Ok(m) => m,
        Err(e) => {
            return Err(e);
        },
    };
    let doc = read_document(html.as_str());
    Ok(text_all(&select_all(&doc, &m)))
}

/// What the landing page says of the digest as a whole.
#[derive(Clone, Debug)]
pub struct Info {
    /// The number of the newest issue.
    pub max_volume: usize,
    /// How many projects the digest lists.
    pub project_count: usize,
    /// The site's own star counter, as shown.
    pub star: String,
}

/// The number that a text starts with: its first word, once surrounding white space is
/// gone, if that word is a number.
pub open spec fn leading_number(text: Seq<char>) -> Option<nat> {
    number_of(split_on(trimmed(text), ' ')[0])
}

/// Reads the number that a text starts with.
pub fn first_number(text: &str) -> (r: Option<usize>)
    ensures
        r is Some <==> leading_number(text@) is Some,
        r is Some ==> r->0 == leading_number(text@)->0,
{
    let words = split(&trim(&to_chars(text)), ' ');
    assert(views(words@)[0] == words@[0]@);
    parse_number(&words[0])
}

/// Where the landing page shows the number of issues.
pub open spec fn volume_counter() -> Seq<char> {
    "body > div.l-content > div.pricing-tables.pure-g > div:nth-child(1) > div > div > span"@
}

/// Where the landing page shows the number of projects.
pub open spec fn project_counter() -> Seq<char> {
    "body > div.l-content > div.pricing-tables.pure-g > div:nth-child(2) > div > div > span"@
}

/// The two counters of the landing page, issues first; a failure where one of them is not
/// shown as a number.
pub open spec fn counters(html: Seq<char>) -> Result<(nat, nat), Error> {
    if html.len() > PAGE_LIMIT || !selector_accepted(project_counter()) || !selector_accepted(
        volume_counter(),
    ) {
        Err(Error::ParseContractViolation)
    } else {
        let projects = leading_number(joined_text(html, html_select(html, project_counter())));
        let volumes = leading_number(joined_text(html, html_select(html, volume_counter())));
        if projects is Some && volumes is Some {
            Ok((volumes->0, projects->0))
        } else {
            Err(Error::ParseContractViolation)
        }
    }
}

/// Reads the number of issues and of projects off the landing page.
pub fn parse_hg_info(html: String) -> (r: Result<Info, Error>)
    ensures
        match counters(html@) {
            Ok((volumes, projects)) => r is Ok && r->Ok_0.max_volume == volumes
                && r->Ok_0.project_count == projects && r->Ok_0.star@ == "55.2k"@,
            Err(e) => r is Err && r->Err_0 == e,
        },
{
    if html.as_str().unicode_len() > PAGE_LIMIT {
        return Err(Error::ParseContractViolation);
    }
    let m_projects = match selector(
        "body > div.l-content > div.pricing-tables.pure-g > div:nth-child(2) > div > div > span",
    ) {
        Ok(m) => m,
        Err(e) => {
            return Err(e);
        },
    };
    let m_volumes = match selector(
        "body > div.l-content > div.pricing-tables.pure-g > div:nth-child(1) > div > div > span",
    ) {
        Ok(m) => m,
        Err(e) => {
            return Err(e);
        },
    };
    let doc = read_document(html.as_str());
    let projects = first_number(text_all(&select_all(&doc, &m_projects)).as_str());
    let volumes = first_number(text_all(&select_all(&doc, &m_volumes)).as_str());
    match (projects, volumes) {
        (Some(project_count), Some(max_volume)) => Ok(
            Info { max_volume, project_count, star: "55.2k".to_owned() },
        ),
        _ => Err(Error::ParseContractViolation),
    }
}

} // verus!
