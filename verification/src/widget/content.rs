//! The result table: the projects on show and the selected row.

use crate::project::{project_views, Project, ProjectView};
use vstd::prelude::*;

verus! {

/// The result table as a part of the screen.
pub struct Content {}

/// The projects on show and the cursor. The cursor is a valid row whenever it is set, so an
/// empty table has none.
#[derive(Debug)]
pub struct ContentState {
    cur: Vec<Project>,
    active: bool,
    selected: Option<usize>,
}

/// The row that a cursor lands on when it moves `incr` rows down from `row` in a table of
/// `len` rows: it stops at the last row.
pub open spec fn row_below(row: nat, incr: nat, len: nat) -> nat
    recommends
        len > 0,
{
    if row + incr >= len - 1 {
        (len - 1) as nat
    } else {
        row + incr
    }
}

/// The row that a cursor lands on when it moves `incr` rows up from `row`: it stops at the
/// first row.
pub open spec fn row_above(row: nat, incr: nat) -> nat {
    if row < incr {
        0
    } else {
        (row - incr) as nat
    }
}

/// The row of a cursor; a cursor that is not set counts as the first row.
pub open spec fn row_of(cursor: Option<nat>) -> nat {
    match cursor {
        Some(row) => row,
        None => 0,
    }
}

impl Default for ContentState {
    fn default() -> (s: ContentState)
        ensures
            s.projects() == Seq::<ProjectView>::empty(),
            s.cursor() is None,
            !s.focused(),
    {
        let s = ContentState { cur: Vec::new(), active: false, selected: None };
        assert(project_views(s.cur@) =~= Seq::<ProjectView>::empty());
        s
    }
}

impl ContentState {
    #[verifier::type_invariant]
    spec fn well_formed(self) -> bool {
        self.selected is Some ==> self.selected->0 < self.cur.len()
    }

    /// The projects on show, in order.
    pub closed spec fn projects(&self) -> Seq<ProjectView> {
        project_views(self.cur@)
    }

    /// The selected row, if one is selected.
    pub closed spec fn cursor(&self) -> Option<nat> {
        match self.selected {
            Some(row) => Some(row as nat),
            None => None,
        }
    }

    /// Whether the table has the keyboard.
    pub closed spec fn focused(&self) -> bool {
        self.active
    }

    /// Replaces the projects on show. The cursor goes to the first row, or is unset where
    /// there is none.
    pub fn add_projects(&mut self, projects: Vec<Project>)
        ensures
            final(self).projects() == project_views(projects@),
            final(self).cursor() == if projects.len() == 0 {
                None::<nat>
            } else {
                Some(0nat)
            },
            final(self).focused() == old(self).focused(),
    {
        let first = if projects.len() == 0 {
            None
        } else {
            Some(0)
        };
        *self = ContentState { cur: projects, active: self.active, selected: first };
    }

    /// Gives the table the keyboard, and a cursor if it has rows and none is selected.
    pub fn active(&mut self)
        ensures
            final(self).focused(),
            final(self).projects() == old(self).projects(),
            final(self).cursor() == if old(self).cursor() is None && old(self).projects().len()
                > 0 {
                Some(0nat)
            } else {
                old(self).cursor()
            },
    {
        proof {
            use_type_invariant(&*self);
        }
        self.active = true;
        if self.selected.is_none() && self.cur.len() > 0 {
            self.selected = Some(0);
        }
    }

    /// Takes the keyboard from the table.
    pub fn deactive(&mut self)
        ensures
            !final(self).focused(),
            final(self).projects() == old(self).projects(),
            final(self).cursor() == old(self).cursor(),
    {
        proof {
            use_type_invariant(&*self);
        }
        self.active = false;
    }

    /// Moves the cursor down by `incr` rows, at most to the last row. An empty table keeps
    /// no cursor.
    pub fn next(&mut self, incr: usize)
        ensures
            final(self).projects() == old(self).projects(),
            final(self).focused() == old(self).focused(),
            final(self).cursor() == if old(self).projects().len() == 0 {
                None::<nat>
            } else {
                Some(
                    row_below(row_of(old(self).cursor()), incr as nat, old(self).projects().len()),
                )
            },
    {
        proof {
            use_type_invariant(&*self);
        }
        let len = self.cur.len();
        if len == 0 {
            return ;
        }
        let cur: usize = match self.selected {
            Some(row) => row,
            None => 0,
        };
        let next: usize = if incr >= len - 1 - cur {
            len - 1
        } else {
            cur + incr
        };
        self.selected = Some(next);
    }

    /// Moves the cursor up by `incr` rows, at most to the first row. An empty table keeps
    /// no cursor.
    pub fn prev(&mut self, incr: usize)
        ensures
            final(self).projects() == old(self).projects(),
            final(self).focused() == old(self).focused(),
            final(self).cursor() == if old(self).projects().len() == 0 {
                None::<nat>
            } else {
                Some(row_above(row_of(old(self).cursor()), incr as nat))
            },
    {
        proof {
            use_type_invariant(&*self);
        }
        if self.cur.len() == 0 {
            return ;
        }
        let cur: usize = match self.selected {
            Some(row) => row,
            None => 0,
        };
        let next: usize = if cur < incr {
            0
        } else {
            cur - incr
        };
        self.selected = Some(next);
    }

    /// Moves the cursor to the first row, if there is one.
    pub fn first(&mut self)
        ensures
            final(self).projects() == old(self).projects(),
            final(self).focused() == old(self).focused(),
            final(self).cursor() == if old(self).projects().len() == 0 {
                None::<nat>
            } else {
                Some(0nat)
            },
    {
        proof {
            use_type_invariant(&*self);
        }
        if self.cur.len() > 0 {
            self.selected = Some(0);
        }
    }

    /// Moves the cursor to the last row, if there is one.
    pub fn last(&mut self)
        ensures
            final(self).projects() == old(self).projects(),
            final(self).focused() == old(self).focused(),
            final(self).cursor() == if old(self).projects().len() == 0 {
                None::<nat>
            } else {
                Some((old(self).projects().len() - 1) as nat)
            },
    {
        proof {
            use_type_invariant(&*self);
        }
        if self.cur.len() > 0 {
            self.selected = Some(self.cur.len() - 1);
        }
    }

    /// The selected row, if one is selected.
    pub fn selected(&self) -> (row: Option<usize>)
        ensures
            match row {
                Some(r) => self.cursor() == Some(r as nat) && r < self.projects().len(),
                None => self.cursor() is None,
            },
    {
        proof {
            use_type_invariant(self);
        }
        self.selected
    }

    /// Whether the table has the keyboard.
    pub fn is_active(&self) -> (b: bool)
        ensures
            b == self.focused(),
    {
        self.active
    }

    /// The projects on show.
    pub fn rows(&self) -> (rows: &Vec<Project>)
        ensures
            project_views(rows@) == self.projects(),
    {
        &self.cur
    }

    /// A copy of the selected project, if one is selected.
    pub fn selected_project(&self) -> (p: Option<Project>)
        ensures
            match self.cursor() {
                Some(row) => p is Some && row < self.projects().len() && p->0@
                    == self.projects()[row as int],
                None => p is None,
            },
    {
        proof {
            use_type_invariant(self);
        }
        match self.selected {
            Some(row) => Some(self.cur[row].duplicate()),
            None => None,
        }
    }

    /// A copy of the selected project.
    pub fn get_selected(&self) -> (p: Project)
        requires
            self.cursor() is Some,
        ensures
            self.cursor()->0 < self.projects().len(),
            p@ == self.projects()[self.cursor()->0 as int],
    {
        proof {
            use_type_invariant(self);
        }
        match self.selected {
            Some(row) => self.cur[row].duplicate(),
            None => Project::default(),
        }
    }
}

} // verus!
