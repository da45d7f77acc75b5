//! The detail page of one project.

use crate::category::{alias_category, lowercased, Category};
use crate::project::Project;
use vstd::prelude::*;

verus! {

/// The detail page as a part of the screen.
pub struct ProjectDetail {}

/// What the detail page shows of a project.
#[derive(Debug)]
pub struct ProjectDetailState {
    pub name: String,
    pub url: String,
    pub star: String,
    pub watch: String,
    pub fork: String,
    pub desc: String,
    /// The category by which the page is coloured.
    pub category: Category,
}

/// The category by which a project is coloured: the one its category text names, or
/// `Other` where it names none.
pub open spec fn colour_category(category: Seq<char>) -> Category {
    match alias_category(lowercased(category)) {
        Some(c) => c,
        None => Category::Other,
    }
}

/// Finds the category by which a project is coloured.
pub fn category_or_other(category: String) -> (c: Category)
    ensures
        c == colour_category(category@),
{
    match Category::try_from(category) {
        Ok(c) => c,
        Err(_) => Category::Other,
    }
}

impl Default for ProjectDetailState {
    fn default() -> (s: ProjectDetailState)
        ensures
            s.name@.len() == 0,
            s.url@.len() == 0,
            s.star@.len() == 0,
            s.watch@.len() == 0,
            s.fork@.len() == 0,
            s.desc@.len() == 0,
            s.category == Category::Java,
    {
        ProjectDetailState {
            name: String::new(),
            url: String::new(),
            star: String::new(),
            watch: String::new(),
            fork: String::new(),
            desc: String::new(),
            category: Category::Java,
        }
    }
}

impl ProjectDetailState {
    /// The detail page of a project.
    pub fn from(project: Project) -> (s: ProjectDetailState)
        ensures
            s.name@ == project.name@,
            s.url@ == project.url@,
            s.star@ == project.star@,
            s.watch@ == project.watch@,
            s.fork@ == project.fork@,
            s.desc@ == project.desc@,
            s.category == colour_category(project.category@),
    {
        let category = category_or_other(project.category);
        ProjectDetailState {
            name: project.name,
            url: project.url,
            star: project.star,
            watch: project.watch,
            fork: project.fork,
            desc: project.desc,
            category,
        }
    }
}

} // verus!
