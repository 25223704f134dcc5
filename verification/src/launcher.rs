//! The launcher's list state: the discovered projects, the query, the visible
//! results and the selected row.

use vstd::prelude::*;

use crate::model::{copy_projects, RecentProject};
use crate::ranking::{search_projects, spec_search};
use crate::text::owned;

verus! {

/// The launcher list: the results of the query over the projects, with a
/// selection that always points at a visible row when there is one.
#[derive(Debug)]
pub struct LauncherState {
    projects: Vec<RecentProject>,
    visible: Vec<RecentProject>,
    query: String,
    selected: usize,
}

/// The row a selection moved by `delta` from `selected` lands on, among `len` rows.
pub open spec fn clamped_selection(selected: int, delta: int, len: int) -> int {
    if len == 0 {
        0
    } else if selected + delta < 0 {
        0
    } else if selected + delta > len - 1 {
        len - 1
    } else {
        selected + delta
    }
}

/// Moving the selection stays on a visible row and never wraps around:
/// it lands on the row `delta` away when there is one, and otherwise stops at
/// the first or last row; moving up never lands below the current row, and
/// moving down never lands above it.
pub proof fn lemma_selection_moves_without_wrapping(selected: int, delta: int, len: int)
    requires
        0 <= selected < len,
    ensures
        0 <= clamped_selection(selected, delta, len) < len,
        delta <= 0 ==> clamped_selection(selected, delta, len) <= selected,
        delta >= 0 ==> clamped_selection(selected, delta, len) >= selected,
        0 <= selected + delta < len ==> clamped_selection(selected, delta, len) == selected + delta,
        selected + delta < 0 ==> clamped_selection(selected, delta, len) == 0,
        selected + delta >= len ==> clamped_selection(selected, delta, len) == len - 1,
{
}

impl LauncherState {
    #[verifier::type_invariant]
    spec fn consistent(self) -> bool {
        &&& self.visible@ == spec_search(self.projects@, self.query@)
        &&& self.visible@.len() == 0 ==> self.selected == 0
        &&& self.visible@.len() > 0 ==> self.selected < self.visible@.len()
    }

    /// The projects the launcher searches.
    pub closed spec fn spec_projects(&self) -> Seq<RecentProject> {
        self.projects@
    }

    /// The current query text.
    pub closed spec fn spec_query(&self) -> Seq<char> {
        self.query@
    }

    /// The rows shown for the query.
    pub closed spec fn spec_visible(&self) -> Seq<RecentProject> {
        self.visible@
    }

    /// The selected row (0 when no row is shown).
    pub closed spec fn spec_selected(&self) -> nat {
        self.selected as nat
    }

    /// An empty launcher: no projects, an empty query, no rows.
    pub fn new() -> (r: Self)
        ensures
            r.spec_projects() == Seq::<RecentProject>::empty(),
            r.spec_query() == Seq::<char>::empty(),
            r.spec_visible() == Seq::<RecentProject>::empty(),
            r.spec_selected() == 0,
    {
        let projects: Vec<RecentProject> = Vec::new();
        let query = String::new();
        let visible = search_projects(projects.as_slice(), query.as_str());
        proof {
            crate::sort::lemma_sort_len(projects@, crate::ranking::by_recent_index());
        }
        LauncherState { projects, visible, query, selected: 0 }
    }

    /// Replaces the projects and recomputes the rows; the first row is selected.
    pub fn set_projects(&mut self, projects: Vec<RecentProject>)
        ensures
            final(self).spec_projects() == projects@,
            final(self).spec_query() == old(self).spec_query(),
            final(self).spec_visible() == spec_search(projects@, old(self).spec_query()),
            final(self).spec_selected() == 0,
    {
        let query = self.query.clone();
        let visible = search_projects(projects.as_slice(), query.as_str());
        *self = LauncherState { projects, visible, query, selected: 0 };
    }

    /// Replaces the query and recomputes the rows; the first row is selected.
    pub fn set_query(&mut self, query: &str)
        ensures
            final(self).spec_projects() == old(self).spec_projects(),
            final(self).spec_query() == query@,
            final(self).spec_visible() == spec_search(old(self).spec_projects(), query@),
            final(self).spec_selected() == 0,
            crate::text::trim(query@).len() == 0 ==> final(self).spec_visible().to_multiset()
                == old(self).spec_projects().to_multiset() && crate::ranking::recency_ordered(
                final(self).spec_visible(),
            ),
    {
        let query = owned(query);
        let projects = copy_projects(self.projects.as_slice());
        let visible = search_projects(projects.as_slice(), query.as_str());
        *self = LauncherState { projects, visible, query, selected: 0 };
    }

    /// Clears the query: the rows list every project from most to least recent.
    pub fn reset_query(&mut self)
        ensures
            final(self).spec_projects() == old(self).spec_projects(),
            final(self).spec_query() == Seq::<char>::empty(),
            final(self).spec_visible() == spec_search(old(self).spec_projects(), Seq::empty()),
            final(self).spec_visible().to_multiset() == old(self).spec_projects().to_multiset(),
            crate::ranking::recency_ordered(final(self).spec_visible()),
            final(self).spec_selected() == 0,
    {
        self.set_query("");
        proof {
            reveal_strlit("");
            assert(crate::text::trim(""@).len() == 0);
        }
    }

    /// Moves the selection by `delta` rows, stopping at the first and last row.
    pub fn move_selection(&mut self, delta: isize)
        ensures
            final(self).spec_projects() == old(self).spec_projects(),
            final(self).spec_query() == old(self).spec_query(),
            final(self).spec_visible() == old(self).spec_visible(),
            final(self).spec_selected() == clamped_selection(
                old(self).spec_selected() as int,
                delta as int,
                old(self).spec_visible().len() as int,
            ),
    {
        proof {
            use_type_invariant(&*self);
        }
        let len = self.visible.len();
        if len == 0 {
            self.selected = 0;
            return;
        }
        let target: i128 = self.selected as i128 + delta as i128;
        let last: i128 = len as i128 - 1;
        let chosen: usize = if target < 0 {
            0
        } else if target > last {
            len - 1
        } else {
            target as usize
        };
        self.selected = chosen;
    }

    /// Selects row `index`, or the last row when `index` is past the end.
    pub fn select_index(&mut self, index: usize)
        ensures
            final(self).spec_projects() == old(self).spec_projects(),
            final(self).spec_query() == old(self).spec_query(),
            final(self).spec_visible() == old(self).spec_visible(),
            final(self).spec_selected() == (if old(self).spec_visible().len() == 0 {
                0
            } else if index < old(self).spec_visible().len() {
                index as int
            } else {
                old(self).spec_visible().len() - 1
            }),
    {
        proof {
            use_type_invariant(&*self);
        }
        let len = self.visible.len();
        if len == 0 {
            self.selected = 0;
        } else {
            self.selected = if index < len - 1 { index } else { len - 1 };
        }
    }

    /// The rows shown for the query.
    pub fn visible(&self) -> (r: &[RecentProject])
        ensures
            r@ == self.spec_visible(),
            r@ == spec_search(self.spec_projects(), self.spec_query()),
    {
        proof {
            use_type_invariant(self);
        }
        self.visible.as_slice()
    }

    /// The selected row, if any row is shown.
    pub fn selected(&self) -> (r: Option<&RecentProject>)
        ensures
            match r {
                Some(p) => self.spec_selected() < self.spec_visible().len() && *p
                    == self.spec_visible()[self.spec_selected() as int],
                None => self.spec_visible().len() == 0,
            },
    {
        proof {
            use_type_invariant(self);
        }
        if self.selected < self.visible.len() {
            Some(&self.visible[self.selected])
        } else {
            None
        }
    }

    /// The selected row's position, if any row is shown.
    pub fn selected_index(&self) -> (r: Option<usize>)
        ensures
            match r {
                Some(i) => self.spec_visible().len() > 0 && i == self.spec_selected(),
                None => self.spec_visible().len() == 0,
            },
    {
        proof {
            use_type_invariant(self);
        }
        if self.visible.len() == 0 {
            None
        } else {
            Some(self.selected)
        }
    }
}

impl Default for LauncherState {
    fn default() -> (r: Self)
        ensures
            r.spec_projects() == Seq::<RecentProject>::empty(),
            r.spec_query() == Seq::<char>::empty(),
            r.spec_visible() == Seq::<RecentProject>::empty(),
            r.spec_selected() == 0,
    {
        LauncherState::new()
    }
}

} // verus!
