//! The record of one listed project.

use crate::text::{
    number_of, parse_number, remove_all, split, split_on, to_chars, to_string, without,
};
use vstd::prelude::*;

verus! {

/// The number written by the word at position `index` of a text whose words are separated
/// by single blanks, if there is such a word and it is a number.
pub open spec fn word_number(content: Seq<char>, index: int) -> Option<nat> {
    let words = split_on(content, ' ');
    if 0 <= index < words.len() {
        number_of(words[index])
    } else {
        None
    }
}

/// Reads the number written by one word of a text.
pub fn parse_word(content: &str, index: usize) -> (r: Option<usize>)
    ensures
        r is Some <==> word_number(content@, index as int) is Some,
        r is Some ==> r->0 == word_number(content@, index as int)->0,
{
    let v = to_chars(content);
    let words = split(&v, ' ');
    if index < words.len() {
        assert(crate::text::views(words@)[index as int] == words@[index as int]@);
        parse_number(&words[index])
    } else {
        None
    }
}

/// Reads the number written by one word of a text that is known to hold it.
pub fn parse_unchecked(content: &str, index: usize) -> (n: usize)
    requires
        word_number(content@, index as int) is Some,
    ensures
        n == word_number(content@, index as int)->0,
{
    match parse_word(content, index) {
        Some(n) => n,
        None => 0,
    }
}

/// The suffix that the site puts behind most category names.
pub open spec fn category_suffix() -> Seq<char> {
    " 项目"@
}

/// One project of the digest. A record is built once and not changed afterwards.
#[derive(Debug, Clone)]
pub struct Project {
    /// The project's name.
    pub name: String,
    /// The issue in which it appeared.
    pub volume: usize,
    /// Its category, without the site's suffix.
    pub category: String,
    /// The address of its repository.
    pub url: String,
    /// What it does.
    pub desc: String,
    /// The star counter, as shown.
    pub star: String,
    /// The watch counter, as shown.
    pub watch: String,
    /// The fork counter, as shown.
    pub fork: String,
}

/// What a project record holds.
pub struct ProjectView {
    pub name: Seq<char>,
    pub volume: nat,
    pub category: Seq<char>,
    pub url: Seq<char>,
    pub desc: Seq<char>,
    pub star: Seq<char>,
    pub watch: Seq<char>,
    pub fork: Seq<char>,
}

impl View for Project {
    type V = ProjectView;

    open spec fn view(&self) -> ProjectView {
        ProjectView {
            name: self.name@,
            volume: self.volume as nat,
            category: self.category@,
            url: self.url@,
            desc: self.desc@,
            star: self.star@,
            watch: self.watch@,
            fork: self.fork@,
        }
    }
}

/// The records that a list of projects holds.
pub open spec fn project_views(projects: Seq<Project>) -> Seq<ProjectView> {
    projects.map_values(|p: Project| p@)
}

impl Default for Project {
    fn default() -> (p: Project)
        ensures
            p@ == (ProjectView {
                name: Seq::empty(),
                volume: 0,
                category: Seq::empty(),
                url: Seq::empty(),
                desc: Seq::empty(),
                star: Seq::empty(),
                watch: Seq::empty(),
                fork: Seq::empty(),
            }),
    {
        Project {
            name: String::new(),
            volume: 0,
            category: String::new(),
            url: String::new(),
            desc: String::new(),
            star: String::new(),
            watch: String::new(),
            fork: String::new(),
        }
    }
}

impl Project {
    /// The record made from the texts found on a page.
    pub open spec fn made_of(
        name: Seq<char>,
        volume: Seq<char>,
        category: Seq<char>,
        url: Seq<char>,
        desc: Seq<char>,
        star: Seq<char>,
        watch: Seq<char>,
        fork: Seq<char>,
    ) -> ProjectView {
        ProjectView {
            name,
            volume: word_number(volume, 1)->0,
            category: without(category, category_suffix()),
            url,
            desc,
            star,
            watch,
            fork,
        }
    }

    /// Builds a record from the texts found on a page. The issue number is the second word
    /// of `volume`; the category loses the site's suffix.
    pub fn new(
        name: &str,
        volume: &str,
        category: &str,
        url: &str,
        desc: &str,
        star: &str,
        watch: &str,
        fork: &str,
    ) -> (p: Project)
        requires
            word_number(volume@, 1) is Some,
        ensures
            p@ == Project::made_of(name@, volume@, category@, url@, desc@, star@, watch@, fork@),
    {
        let number = parse_unchecked(volume, 1);
        let suffix = to_chars(" 项目");
        let plain = remove_all(&to_chars(category), &suffix);
        Project {
            name: name.to_owned(),
            volume: number,
            category: to_string(&plain),
            url: url.to_owned(),
            desc: desc.to_owned(),
            star: star.to_owned(),
            watch: watch.to_owned(),
            fork: fork.to_owned(),
        }
    }

    /// A copy of the record.
    pub fn duplicate(&self) -> (p: Project)
        ensures
            p@ == self@,
    {
        Project {
            name: self.name.clone(),
            volume: self.volume,
            category: self.category.clone(),
            url: self.url.clone(),
            desc: self.desc.clone(),
            star: self.star.clone(),
            watch: self.watch.clone(),
            fork: self.fork.clone(),
        }
    }
}

} // verus!
