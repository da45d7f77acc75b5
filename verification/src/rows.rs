//! From the texts found around one listing to a project record.
//!
//! The functions here take what a page reader found as plain texts and decide what record, if
//! any, comes of it. They read no document.

use crate::category::is_word;
use crate::error::Error;
use crate::project::{word_number, parse_word, Project, ProjectView};
use crate::text::{
    lemma_without_absent, lemma_without_prefix, occurs_at, piece_after_first, remove_all,
    second_piece, split, split_on, to_chars, to_string, trim, trimmed, views, without,
};
use vstd::prelude::*;

verus! {

/// The path that the site puts in front of outbound links to count clicks.
pub open spec fn tracking_prefix() -> Seq<char> {
    "/periodical/statistics/click/?target="@
}

/// What stands for a counter or a text that a listing does not show.
pub open spec fn placeholder() -> Seq<char> {
    "N/A"@
}

/// The lines of a text, each without surrounding white space, empty ones left out.
pub open spec fn clean_lines(text: Seq<char>) -> Seq<Seq<char>> {
    split_on(text, '\n').map_values(|l: Seq<char>| trimmed(l)).filter(
        |l: Seq<char>| l.len() > 0,
    )
}

/// Line `k` of `lines`, or the placeholder where there is no such line.
pub open spec fn line_or_placeholder(lines: Seq<Seq<char>>, k: int) -> Seq<char> {
    if 0 <= k < lines.len() {
        lines[k]
    } else {
        placeholder()
    }
}

/// The star counter of a search result: its first line without the word `Star`.
pub open spec fn search_star(lines: Seq<Seq<char>>) -> Seq<char> {
    without(line_or_placeholder(lines, 0), "Star "@)
}

/// The description of a search result: its second line, or the third where the second is
/// only the marker of a translated page.
pub open spec fn search_desc(lines: Seq<Seq<char>>) -> Seq<char> {
    if line_or_placeholder(lines, 1) == "中文"@ {
        line_or_placeholder(lines, 2)
    } else {
        line_or_placeholder(lines, 1)
    }
}

/// The address behind a link of the site.
pub open spec fn target_of(href: Seq<char>) -> Seq<char> {
    without(href, tracking_prefix())
}

/// The address behind a link is the link itself where the link holds no tracking prefix,
/// and what follows the prefix where the link starts with it and holds no other. Then the
/// address holds no tracking prefix.
pub proof fn lemma_tracking_prefix_removed(rest: Seq<char>)
    requires
        forall|i: int| !occurs_at(rest, i, tracking_prefix()),
    ensures
        target_of(rest) == rest,
        target_of(tracking_prefix() + rest) == rest,
        forall|i: int| !occurs_at(target_of(tracking_prefix() + rest), i, tracking_prefix()),
{
    reveal_strlit("/periodical/statistics/click/?target=");
    lemma_without_absent(rest, tracking_prefix());
    lemma_without_prefix(rest, tracking_prefix());
}

/// What comes of one search result: nothing where it has no link, a failure where the line
/// below it does not name issue and category, else the record.
pub open spec fn search_row(
    name: Seq<char>,
    href: Option<Seq<char>>,
    body: Seq<char>,
    origin: Seq<char>,
) -> Result<Option<ProjectView>, Error> {
    match href {
        None => Ok(None),
        Some(link) => {
            let lines = clean_lines(body);
            let parts = split_on(origin, '、');
            if parts.len() < 2 || word_number(parts[0], 1) is None {
                Err(Error::ParseContractViolation)
            } else {
                Ok(
                    Some(
                        Project::made_of(
                            name,
                            parts[0],
                            parts[1],
                            target_of(link),
                            search_desc(lines),
                            search_star(lines),
                            placeholder(),
                            placeholder(),
                        ),
                    ),
                )
            }
        },
    }
}

/// What a row result holds.
pub open spec fn row_view(row: Result<Option<Project>, Error>) -> Result<
    Option<ProjectView>,
    Error,
> {
    match row {
        Ok(Some(p)) => Ok(Some(p@)),
        Ok(None) => Ok(None),
        Err(e) => Err(e),
    }
}

/// Splits a text into lines, trims each and drops the empty ones.
pub fn lines_of(v: &Vec<char>) -> (lines: Vec<Vec<char>>)
    ensures
        views(lines@) == clean_lines(v@),
{
    let pieces = split(v, '\n');
    let ghost all = views(pieces@);
    let ghost f = |l: Seq<char>| trimmed(l);
    let ghost keep = |l: Seq<char>| l.len() > 0;
    let mut out: Vec<Vec<char>> = Vec::new();
    let mut i: usize = 0;
    proof {
        reveal(Seq::filter);
        assert(all.subrange(0, 0).map_values(f) =~= Seq::<Seq<char>>::empty());
        assert(views(out@) =~= Seq::<Seq<char>>::empty());
    }
    while i < pieces.len()
        invariant
            i <= pieces.len(),
            all == views(pieces@),
            f == |l: Seq<char>| trimmed(l),
            keep == |l: Seq<char>| l.len() > 0,
            views(out@) == all.subrange(0, i as int).map_values(f).filter(keep),
        decreases pieces.len() - i,
    {
        let t = trim(&pieces[i]);
        proof {
            reveal(Seq::filter);
            let before = all.subrange(0, i as int).map_values(f);
            let after = all.subrange(0, i as int + 1).map_values(f);
            assert(after =~= before.push(t@));
            assert(after.drop_last() =~= before);
        }
        if t.len() > 0 {
            let ghost old_out = out@;
            out.push(t);
            assert(views(out@) =~= views(old_out).push(out@.last()@));
        }
        i = i + 1;
    }
    assert(all.subrange(0, pieces.len() as int) =~= all);
    out
}

/// The text of a line, or the placeholder where the line is missing.
pub fn line_at(lines: &Vec<Vec<char>>, k: usize) -> (line: Vec<char>)
    ensures
        line@ == line_or_placeholder(views(lines@), k as int),
{
    if k < lines.len() {
        lines[k].clone()
    } else {
        to_chars("N/A")
    }
}

/// Takes the site's click counter out of a link.
pub fn strip_tracking(href: &str) -> (url: String)
    ensures
        url@ == target_of(href@),
{
    let prefix = to_chars("/periodical/statistics/click/?target=");
    let url = remove_all(&to_chars(href), &prefix);
    to_string(&url)
}

/// Builds the record of one search result from the name of its link, the link's address if
/// it has one, the text of the paragraph below the heading and the text of the line below
/// that, which names issue and category.
pub fn search_project(name: &str, href: Option<String>, body: &str, origin: &str) -> (row: Result<
    Option<Project>,
    Error,
>)
    ensures
        row_view(row) == search_row(name@, text_view(href), body@, origin@),
{
    let link = match href {
        Some(h) => h,
        None => {
            return Ok(None);
        },
    };
    let lines = lines_of(&to_chars(body));
    let parts = split(&to_chars(origin), '、');
    if parts.len() < 2 {
        return Err(Error::ParseContractViolation);
    }
    assert(views(parts@)[0] == parts@[0]@);
    assert(views(parts@)[1] == parts@[1]@);
    let volume = to_string(&parts[0]);
    let category = to_string(&parts[1]);
    if parse_word(volume.as_str(), 1).is_none() {
        return Err(Error::ParseContractViolation);
    }
    let star = to_string(&remove_all(&line_at(&lines, 0), &to_chars("Star ")));
    let second = line_at(&lines, 1);
    let desc = if is_word(&second, "中文") {
        line_at(&lines, 2)
    } else {
        second
    };
    let desc = to_string(&desc);
    let url = strip_tracking(link.as_str());
    Ok(
        Some(
            Project::new(
                name,
                volume.as_str(),
                category.as_str(),
                url.as_str(),
                desc.as_str(),
                star.as_str(),
                "N/A",
                "N/A",
            ),
        ),
    )
}


/// The part of a paragraph's markup that holds the description, before tags are taken out:
/// what follows the first line break, up to the next one, trimmed, without the closing tag
/// of the paragraph and without newlines. Nothing where the paragraph has no line break.
pub open spec fn description_markup(markup: Seq<char>) -> Option<Seq<char>> {
    match second_piece(markup, "<br>"@) {
        None => None,
        Some(piece) => Some(without(without(trimmed(piece), "</p>"@), "\n"@)),
    }
}

/// Cuts the part that holds the description out of a paragraph's markup.
pub fn description_source(markup: &str) -> (r: Option<String>)
    ensures
        r is Some <==> description_markup(markup@) is Some,
        r is Some ==> r->0@ == description_markup(markup@)->0,
{
    let piece = match piece_after_first(&to_chars(markup), &to_chars("<br>")) {
        Some(piece) => piece,
        None => {
            return None;
        },
    };
    let open = remove_all(&trim(&piece), &to_chars("</p>"));
    let flat = remove_all(&open, &to_chars("\n"));
    Some(to_string(&flat))
}

/// The texts held by a list of strings.
pub open spec fn texts(v: Seq<String>) -> Seq<Seq<char>> {
    v.map_values(|s: String| s@)
}

/// What comes of one entry of a category page: nothing where it has no link, a failure
/// where it shows fewer than four badges or the first badge does not name the issue, else
/// the record. The badges are issue, stars, watchers and forks, in this order.
pub open spec fn category_row(
    name: Seq<char>,
    href: Option<Seq<char>>,
    badges: Seq<Seq<char>>,
    desc: Seq<char>,
    category: Seq<char>,
) -> Result<Option<ProjectView>, Error> {
    match href {
        None => Ok(None),
        Some(link) => {
            if badges.len() < 4 || word_number(badges[0], 1) is None {
                Err(Error::ParseContractViolation)
            } else {
                Ok(
                    Some(
                        Project::made_of(
                            name,
                            badges[0],
                            category,
                            target_of(link),
                            desc,
                            without(badges[1], "Star "@),
                            without(badges[2], "Watch "@),
                            without(badges[3], "Fork "@),
                        ),
                    ),
                )
            }
        },
    }
}

/// What comes of one entry of an issue page: nothing where it has no link, a failure where
/// it has no name, shows fewer than three badges or the page title does not name the issue,
/// else the record. The badges are stars, watchers and forks, in this order.
pub open spec fn volume_row(
    name: Option<Seq<char>>,
    href: Option<Seq<char>>,
    badges: Seq<Seq<char>>,
    desc: Seq<char>,
    title: Seq<char>,
    category: Seq<char>,
) -> Result<Option<ProjectView>, Error> {
    match href {
        None => Ok(None),
        Some(link) => {
            if name is None || badges.len() < 3 || word_number(title, 1) is None {
                Err(Error::ParseContractViolation)
            } else {
                Ok(
                    Some(
                        Project::made_of(
                            name->0,
                            title,
                            category,
                            target_of(link),
                            desc,
                            without(badges[0], "Star "@),
                            without(badges[1], "Watch "@),
                            without(badges[2], "Fork "@),
                        ),
                    ),
                )
            }
        },
    }
}

/// What an optional string holds.
pub open spec fn text_view(s: Option<String>) -> Option<Seq<char>> {
    match s {
        Some(s) => Some(s@),
        None => None,
    }
}

/// A badge text without its label.
pub fn badge_count(badge: &String, label: &str) -> (count: String)
    ensures
        count@ == without(badge@, label@),
{
    to_string(&remove_all(&to_chars(badge.as_str()), &to_chars(label)))
}

/// Builds the record of one entry of a category page from the name of its link, the link's
/// address if it has one, the texts of its badges, its description and the page's category.
pub fn category_project(
    name: &str,
    href: Option<String>,
    badges: &Vec<String>,
    desc: &str,
    category: &str,
) -> (row: Result<Option<Project>, Error>)
    ensures
        row_view(row) == category_row(name@, text_view(href), texts(badges@), desc@, category@),
{
    let link = match href {
        Some(h) => h,
        None => {
            return Ok(None);
        },
    };
    if badges.len() < 4 {
        return Err(Error::ParseContractViolation);
    }
    assert(texts(badges@)[0] == badges@[0]@);
    assert(texts(badges@)[1] == badges@[1]@);
    assert(texts(badges@)[2] == badges@[2]@);
    assert(texts(badges@)[3] == badges@[3]@);
    if parse_word(badges[0].as_str(), 1).is_none() {
        return Err(Error::ParseContractViolation);
    }
    let star = badge_count(&badges[1], "Star ");
    let watch = badge_count(&badges[2], "Watch ");
    let fork = badge_count(&badges[3], "Fork ");
    let url = strip_tracking(link.as_str());
    Ok(
        Some(
            Project::new(
                name,
                badges[0].as_str(),
                category,
                url.as_str(),
                desc,
                star.as_str(),
                watch.as_str(),
                fork.as_str(),
            ),
        ),
    )
}

/// Builds the record of one entry of an issue page from its name if it has one, its link's
/// address if it has one, the texts of its badges, its description, the page's title and
/// the category heading it stands under.
pub fn volume_project(
    name: Option<String>,
    href: Option<String>,
    badges: &Vec<String>,
    desc: &str,
    title: &str,
    category: &str,
) -> (row: Result<Option<Project>, Error>)
    ensures
        row_view(row) == volume_row(
            text_view(name),
            text_view(href),
            texts(badges@),
            desc@,
            title@,
            category@,
        ),
{
    let link = match href {
        Some(h) => h,
        None => {
            return Ok(None);
        },
    };
    let name = match name {
        Some(n) => n,
        None => {
            return Err(Error::ParseContractViolation);
        },
    };
    if badges.len() < 3 {
        return Err(Error::ParseContractViolation);
    }
    assert(texts(badges@)[0] == badges@[0]@);
    assert(texts(badges@)[1] == badges@[1]@);
    assert(texts(badges@)[2] == badges@[2]@);
    if parse_word(title, 1).is_none() {
        return Err(Error::ParseContractViolation);
    }
    let star = badge_count(&badges[0], "Star ");
    let watch = badge_count(&badges[1], "Watch ");
    let fork = badge_count(&badges[2], "Fork ");
    let url = strip_tracking(link.as_str());
    Ok(
        Some(
            Project::new(
                name.as_str(),
                title,
                category,
                url.as_str(),
                desc,
                star.as_str(),
                watch.as_str(),
                fork.as_str(),
            ),
        ),
    )
}

} // verus!
