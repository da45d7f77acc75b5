//! Which page a query asks for, where that page lives, and the memory of pages already
//! fetched. Fetching itself is left to the caller.

use crate::category::{alias_category, lowercased, Category};
use crate::error::Error;
use crate::mode::SearchMode;
use crate::text::{after_first, remainder, same_text, to_chars, to_string};
use crate::widget::statusline::{number_after_sigil, query_number};
use vstd::prelude::*;

verus! {

/// A page of the site.
#[derive(Debug, Clone)]
pub enum Request {
    /// The landing page.
    Home,
    /// The results of a text search.
    Search(String),
    /// One issue of the digest.
    Volume(usize),
    /// One page of a category.
    Category(Category, usize),
}

/// What a request holds.
pub enum RequestView {
    Home,
    Search(Seq<char>),
    Volume(nat),
    Category(Category, nat),
}

impl View for Request {
    type V = RequestView;

    open spec fn view(&self) -> RequestView {
        match self {
            Request::Home => RequestView::Home,
            Request::Search(query) => RequestView::Search(query@),
            Request::Volume(volume) => RequestView::Volume(*volume as nat),
            Request::Category(category, page_no) => RequestView::Category(
                *category,
                *page_no as nat,
            ),
        }
    }
}

/// An issue number held at or below the number of the newest issue.
pub open spec fn clamp_volume(volume: nat, max_volume: nat) -> nat {
    if volume > max_volume {
        max_volume
    } else {
        volume
    }
}

/// The page that a query asks for. A text query asks for its search results. An issue
/// query must write a number behind its first character and asks for that issue, or for the
/// newest one where the number is higher. A category query must name a category behind its
/// first character and asks for that category's first page.
pub open spec fn request_of(text: Seq<char>, mode: SearchMode, max_volume: nat) -> Result<
    RequestView,
    Error,
> {
    match mode {
        SearchMode::Normal => Ok(RequestView::Search(text)),
        SearchMode::Volume => match query_number(text) {
            Some(volume) => Ok(RequestView::Volume(clamp_volume(volume, max_volume))),
            None => Err(Error::InvalidVolume),
        },
        SearchMode::Category => match alias_category(lowercased(remainder(text))) {
            Some(category) => Ok(RequestView::Category(category, 1)),
            None => Err(Error::InvalidCategory),
        },
    }
}

/// What the result of resolving a query holds.
pub open spec fn resolved_view(r: Result<Request, Error>) -> Result<RequestView, Error> {
    match r {
        Ok(request) => Ok(request@),
        Err(e) => Err(e),
    }
}

/// What follows the first character of a query.
pub fn after_sigil(query: &str) -> (rest: String)
    ensures
        rest@ == remainder(query@),
{
    to_string(&after_first(&to_chars(query)))
}

/// Resolves a query to the page it asks for.
pub fn fetch(text: String, mode: SearchMode, max_volume: usize) -> (r: Result<Request, Error>)
    ensures
        resolved_view(r) == request_of(text@, mode, max_volume as nat),
{
    match mode {
        SearchMode::Normal => Ok(Request::Search(text)),
        SearchMode::Volume => match number_after_sigil(text.as_str()) {
            Some(volume) => {
                if volume > max_volume {
                    Ok(Request::Volume(max_volume))
                } else {
                    Ok(Request::Volume(volume))
                }
            },
            None => Err(Error::InvalidVolume),
        },
        SearchMode::Category => match Category::try_from(after_sigil(text.as_str())) {
            Ok(category) => Ok(Request::Category(category, 1)),
            Err(_) => Err(Error::InvalidCategory),
        },
    }
}

/// The character that writes a digit.
pub open spec fn digit_char(d: nat) -> char {
    if d == 0 {
        '0'
    } else if d == 1 {
        '1'
    } else if d == 2 {
        '2'
    } else if d == 3 {
        '3'
    } else if d == 4 {
        '4'
    } else if d == 5 {
        '5'
    } else if d == 6 {
        '6'
    } else if d == 7 {
        '7'
    } else if d == 8 {
        '8'
    } else {
        '9'
    }
}

/// A number written in decimal digits, without leading zeros.
pub open spec fn decimal(n: nat) -> Seq<char>
    decreases n,
{
    if n < 10 {
        seq![digit_char(n)]
    } else {
        decimal(n / 10).push(digit_char(n % 10))
    }
}

/// A number written in at least two decimal digits.
pub open spec fn two_digits(n: nat) -> Seq<char> {
    if n < 10 {
        seq!['0', digit_char(n)]
    } else {
        decimal(n)
    }
}

/// The character that writes a digit.
pub fn digit_to_char(d: usize) -> (c: char)
    requires
        d < 10,
    ensures
        c == digit_char(d as nat),
{
    if d == 0 {
        '0'
    } else if d == 1 {
        '1'
    } else if d == 2 {
        '2'
    } else if d == 3 {
        '3'
    } else if d == 4 {
        '4'
    } else if d == 5 {
        '5'
    } else if d == 6 {
        '6'
    } else if d == 7 {
        '7'
    } else if d == 8 {
        '8'
    } else {
        '9'
    }
}

/// Writes a number in decimal digits.
pub fn write_decimal(n: usize) -> (digits: Vec<char>)
    ensures
        digits@ == decimal(n as nat),
    decreases n,
{
    if n < 10 {
        let mut digits: Vec<char> = Vec::new();
        digits.push(digit_to_char(n));
        assert(digits@ =~= seq![digit_char(n as nat)]);
        digits
    } else {
        let mut digits = write_decimal(n / 10);
        digits.push(digit_to_char(n % 10));
        digits
    }
}

/// The address of the site.
pub open spec fn site() -> Seq<char> {
    "https://hellogithub.com"@
}

/// The address under which the digest lives.
pub open spec fn base_path() -> Seq<char> {
    "https://hellogithub.com/periodical"@
}

/// The address of an issue: the issue number is written in at least two digits.
pub open spec fn volume_url(volume: nat) -> Seq<char> {
    base_path() + "/volume/"@ + two_digits(volume) + "/"@
}

/// The address of a page of a category.
pub open spec fn category_url(category: Category, page_no: nat) -> Seq<char> {
    base_path() + "/category/"@ + category.zh_text() + "/?page="@ + decimal(page_no)
}

/// The address of the results of a text search.
pub open spec fn search_url(query: Seq<char>) -> Seq<char> {
    base_path() + "/search?q="@ + query
}

/// The address of a page.
pub open spec fn url_of(request: RequestView) -> Seq<char> {
    match request {
        RequestView::Home => site(),
        RequestView::Search(query) => search_url(query),
        RequestView::Volume(volume) => volume_url(volume),
        RequestView::Category(category, page_no) => category_url(category, page_no),
    }
}

/// Appends the characters of `tail` to `head`.
fn extend(head: &mut Vec<char>, tail: &Vec<char>)
    ensures
        final(head)@ == old(head)@ + tail@,
{
    let mut i: usize = 0;
    assert(head@ =~= old(head)@ + tail@.subrange(0, 0));
    while i < tail.len()
        invariant
            i <= tail.len(),
            head@ == old(head)@ + tail@.subrange(0, i as int),
        decreases tail.len() - i,
    {
        head.push(tail[i]);
        assert(head@ =~= old(head)@ + tail@.subrange(0, i as int + 1));
        i = i + 1;
    }
    assert(tail@.subrange(0, tail.len() as int) =~= tail@);
}

/// The address of an issue.
pub fn fetch_volume(volume: usize) -> (url: String)
    ensures
        url@ == volume_url(volume as nat),
{
    let mut url = to_chars("https://hellogithub.com/periodical");
    extend(&mut url, &to_chars("/volume/"));
    if volume < 10 {
        url.push('0');
        url.push(digit_to_char(volume));
        assert(url@ =~= base_path() + "/volume/"@ + two_digits(volume as nat));
    } else {
        extend(&mut url, &write_decimal(volume));
    }
    extend(&mut url, &to_chars("/"));
    to_string(&url)
}

/// The address of a page of a category.
pub fn fetch_category(category: Category, page_no: usize) -> (url: String)
    ensures
        url@ == category_url(category, page_no as nat),
{
    let mut url = to_chars("https://hellogithub.com/periodical");
    extend(&mut url, &to_chars("/category/"));
    extend(&mut url, &to_chars(category.to_zh().as_str()));
    extend(&mut url, &to_chars("/?page="));
    extend(&mut url, &write_decimal(page_no));
    to_string(&url)
}

/// The address of the results of a text search.
pub fn search(wait_search: String) -> (url: String)
    ensures
        url@ == search_url(wait_search@),
{
    let mut url = to_chars("https://hellogithub.com/periodical");
    extend(&mut url, &to_chars("/search?q="));
    extend(&mut url, &to_chars(wait_search.as_str()));
    to_string(&url)
}

impl Request {
    /// The address of the page.
    pub fn url(&self) -> (url: String)
        ensures
            url@ == url_of(self@),
    {
        match self {
            Request::Home => "https://hellogithub.com".to_owned(),
            Request::Search(query) => search(query.clone()),
            Request::Volume(volume) => fetch_volume(*volume),
            Request::Category(category, page_no) => fetch_category(*category, *page_no),
        }
    }

    /// Whether two requests ask for the same page.
    pub fn same(&self, other: &Request) -> (b: bool)
        ensures
            b == (self@ == other@),
    {
        match (self, other) {
            (Request::Home, Request::Home) => true,
            (Request::Search(a), Request::Search(b)) => same_text(
                &to_chars(a.as_str()),
                &to_chars(b.as_str()),
            ),
            (Request::Volume(a), Request::Volume(b)) => *a == *b,
            (Request::Category(a, p), Request::Category(b, q)) => *a == *b && *p == *q,
            _ => false,
        }
    }

    /// A copy of the request.
    pub fn duplicate(&self) -> (r: Request)
        ensures
            r@ == self@,
    {
        match self {
            Request::Home => Request::Home,
            Request::Search(query) => Request::Search(query.clone()),
            Request::Volume(volume) => Request::Volume(*volume),
            Request::Category(category, page_no) => Request::Category(*category, *page_no),
        }
    }
}

/// The pages of the site that were fetched before, each with its text.
#[derive(Debug)]
pub struct FetchCache {
    entries: Vec<(Request, String)>,
}

/// The text remembered for `key` in a list of remembered pages: that of the first entry
/// made for it.
pub open spec fn remembered(entries: Seq<(Request, String)>, key: RequestView) -> Option<
    Seq<char>,
>
    decreases entries.len(),
{
    if entries.len() == 0 {
        None
    } else {
        match remembered(entries.drop_last(), key) {
            Some(html) => Some(html),
            None => if entries.last().0@ == key {
                Some(entries.last().1@)
            } else {
                None
            },
        }
    }
}

impl FetchCache {
    /// The text remembered for a page, if one is.
    pub closed spec fn page(&self, key: RequestView) -> Option<Seq<char>> {
        remembered(self.entries@, key)
    }

    /// Whether `after` is `before` with the text `html` stored for `key`: a page that was
    /// remembered keeps its text, and nothing else changes.
    pub open spec fn stored(
        before: FetchCache,
        after: FetchCache,
        key: RequestView,
        html: Seq<char>,
    ) -> bool {
        forall|k: RequestView|
            #[trigger] after.page(k) == if k == key && before.page(k) is None {
                Some(html)
            } else {
                before.page(k)
            }
    }

    /// A memory that holds no page.
    pub fn new() -> (cache: FetchCache)
        ensures
            forall|k: RequestView| #[trigger] cache.page(k) is None,
    {
        FetchCache { entries: Vec::new() }
    }

    /// The text remembered for a page, if one is.
    pub fn get(&self, request: &Request) -> (html: Option<String>)
        ensures
            match self.page(request@) {
                Some(text) => html is Some && html->0@ == text,
                None => html is None,
            },
    {
        let mut i: usize = 0;
        assert(self.entries@.subrange(0, 0) =~= Seq::empty());
        while i < self.entries.len()
            invariant
                i <= self.entries.len(),
                remembered(self.entries@.subrange(0, i as int), request@) is None,
            decreases self.entries.len() - i,
        {
            assert(self.entries@.subrange(0, i as int + 1).drop_last() =~= self.entries@.subrange(
                0,
                i as int,
            ));
            if self.entries[i].0.same(request) {
                proof {
                    lemma_remembered_stays(self.entries@, i as int + 1, request@);
                }
                return Some(self.entries[i].1.clone());
            }
            i = i + 1;
        }
        assert(self.entries@.subrange(0, self.entries.len() as int) =~= self.entries@);
        None
    }

    /// Remembers the text of a page, unless one is remembered for it already.
    pub fn put(&mut self, request: Request, html: String)
        ensures
            FetchCache::stored(*old(self), *final(self), request@, html@),
    {
        if self.get(&request).is_none() {
            let ghost before = self.entries@;
            self.entries.push((request, html));
            assert(self.entries@.drop_last() =~= before);
        }
    }
}

/// What is remembered among the first entries stays remembered among all.
pub proof fn lemma_remembered_stays(entries: Seq<(Request, String)>, k: int, key: RequestView)
    requires
        0 <= k <= entries.len(),
        remembered(entries.subrange(0, k), key) is Some,
    ensures
        remembered(entries, key) == remembered(entries.subrange(0, k), key),
    decreases entries.len() - k,
{
    if k == entries.len() {
        assert(entries.subrange(0, k) =~= entries);
    } else {
        assert(entries.subrange(0, k + 1).drop_last() =~= entries.subrange(0, k));
        lemma_remembered_stays(entries, k + 1, key);
    }
}

/// Once the text of a page is stored, asking for that page again finds the same text, so
/// the page is fetched once only; storing another text for it later changes nothing.
pub proof fn lemma_page_fetched_once(
    empty: FetchCache,
    first: FetchCache,
    second: FetchCache,
    key: RequestView,
    html: Seq<char>,
    other: Seq<char>,
)
    requires
        empty.page(key) is None,
        FetchCache::stored(empty, first, key, html),
        FetchCache::stored(first, second, key, other),
    ensures
        first.page(key) == Some(html),
        second.page(key) == Some(html),
        forall|k: RequestView| #[trigger] second.page(k) == first.page(k),
{
    assert(first.page(key) == Some(html));
    assert forall|k: RequestView| #[trigger] second.page(k) == first.page(k) by {
        assert(first.page(key) is Some);
    }
}

} // verus!
