//! Browser-style navigation history.
//!
//! A [`NavigationState`] remembers where the user is, where they have been and
//! how far back along that trail they currently stand. Every operation is
//! specified against [`NavigationModel`], a purely mathematical copy of the
//! state, and the laws that relate the operations to each other are proved on
//! that model at the end of this module.
//!
//! The controller never looks at the file system. A caller that wants the
//! history to hold only locations it managed to display lists the target
//! first and commits it with [`NavigationState::navigate`] afterwards;
//! [`NavigationState::parent`] tells it where `go_up` would lead.

use crate::path::{opt_view, parent_of, path_parent};
use vstd::prelude::*;

verus! {

/// How the entries of a directory are presented.
#[derive(Clone, Copy, Debug, PartialEq, Eq, Structural)]
pub enum ViewMode {
    Grid,
    List,
}

/// A location as the model sees it: the characters of an absolute path.
pub type Location = Seq<char>;

/// Mathematical model of the navigation state.
#[verifier::ext_equal]
pub struct NavigationModel {
    /// The location on display.
    pub current: Location,
    /// Every location visited, oldest first. Duplicates are kept.
    pub history: Seq<Location>,
    /// Index into `history` of the location on display.
    pub cursor: int,
    /// Presentation preference; navigation never touches it.
    pub view_mode: ViewMode,
}

impl NavigationModel {
    /// The cursor points into a non-empty history, at the current location.
    pub open spec fn wf(self) -> bool {
        &&& 0 <= self.cursor < self.history.len()
        &&& self.history[self.cursor] == self.current
    }

    /// The state an application starts in: one entry, cursor on it, grid view.
    pub open spec fn initial(start: Location) -> Self {
        NavigationModel {
            current: start,
            history: seq![start],
            cursor: 0,
            view_mode: ViewMode::Grid,
        }
    }

    /// Visiting `to`: everything after the cursor is forgotten, `to` is
    /// appended and becomes the entry under the cursor.
    pub open spec fn navigate(self, to: Location) -> Self {
        NavigationModel {
            current: to,
            history: self.history.take(self.cursor + 1).push(to),
            cursor: self.cursor + 1,
            view_mode: self.view_mode,
        }
    }

    /// There is an older entry to return to.
    pub open spec fn can_go_back(self) -> bool {
        self.cursor > 0
    }

    /// There is a newer entry to return to.
    pub open spec fn can_go_forward(self) -> bool {
        self.cursor < self.history.len() - 1
    }

    /// Where `go_back` leads, if anywhere.
    pub open spec fn back_target(self) -> Option<Location> {
        if self.can_go_back() {
            Some(self.history[self.cursor - 1])
        } else {
            None
        }
    }

    /// Where `go_forward` leads, if anywhere.
    pub open spec fn forward_target(self) -> Option<Location> {
        if self.can_go_forward() {
            Some(self.history[self.cursor + 1])
        } else {
            None
        }
    }

    /// One step towards the oldest entry; nothing at all when already there.
    pub open spec fn go_back(self) -> Self {
        if self.can_go_back() {
            NavigationModel {
                current: self.history[self.cursor - 1],
                cursor: self.cursor - 1,
                ..self
            }
        } else {
            self
        }
    }

    /// One step towards the newest entry; nothing at all when already there.
    pub open spec fn go_forward(self) -> Self {
        if self.can_go_forward() {
            NavigationModel {
                current: self.history[self.cursor + 1],
                cursor: self.cursor + 1,
                ..self
            }
        } else {
            self
        }
    }

    /// Moving to `parent` exactly as `navigate` would, or staying put when
    /// the current location has no parent.
    pub open spec fn go_up(self, parent: Option<Location>) -> Self {
        match parent {
            Some(p) => self.navigate(p),
            None => self,
        }
    }

    /// Changing the presentation only.
    pub open spec fn set_view_mode(self, mode: ViewMode) -> Self {
        NavigationModel { view_mode: mode, ..self }
    }

    /// The state after visiting each of `targets` in turn.
    pub open spec fn navigate_all(self, targets: Seq<Location>) -> Self
        decreases targets.len(),
    {
        if targets.len() == 0 {
            self
        } else {
            self.navigate_all(targets.drop_last()).navigate(targets.last())
        }
    }
}

/// The locations held by a vector of paths.
pub open spec fn locations(paths: Seq<String>) -> Seq<Location> {
    Seq::new(paths.len(), |i: int| paths[i]@)
}

/// The navigation controller's state.
pub struct NavigationState {
    current: String,
    history: Vec<String>,
    cursor: usize,
    view_mode: ViewMode,
}

impl View for NavigationState {
    type V = NavigationModel;

    closed spec fn view(&self) -> NavigationModel {
        NavigationModel {
            current: self.current@,
            history: locations(self.history@),
            cursor: self.cursor as int,
            view_mode: self.view_mode,
        }
    }
}

impl NavigationState {
    /// Starts a history at `initial`.
    pub fn new(initial: String) -> (state: Self)
        ensures
            state@ == NavigationModel::initial(initial@),
            state@.wf(),
    {
        let mut history: Vec<String> = Vec::new();
        history.push(initial.clone());
        let state = NavigationState {
            current: initial,
            history,
            cursor: 0,
            view_mode: ViewMode::Grid,
        };
        assert(state@.history =~= seq![initial@]);
        state
    }

    /// The location on display.
    pub fn current(&self) -> (current: &String)
        ensures
            current@ == self@.current,
    {
        &self.current
    }

    /// Every location visited, oldest first.
    pub fn history(&self) -> (history: &Vec<String>)
        ensures
            locations(history@) == self@.history,
    {
        &self.history
    }

    /// Index into the history of the location on display.
    pub fn cursor(&self) -> (cursor: usize)
        ensures
            cursor == self@.cursor,
    {
        self.cursor
    }

    /// The presentation preference.
    pub fn view_mode(&self) -> (mode: ViewMode)
        ensures
            mode == self@.view_mode,
    {
        self.view_mode
    }

    /// Whether `go_back` would move.
    pub fn can_go_back(&self) -> (yes: bool)
        ensures
            yes == self@.can_go_back(),
    {
        self.cursor > 0
    }

    /// Whether `go_forward` would move.
    pub fn can_go_forward(&self) -> (yes: bool)
        ensures
            yes == self@.can_go_forward(),
    {
        self.cursor < self.history.len() && self.cursor + 1 < self.history.len()
    }

    /// Where `go_back` would lead, without going there.
    pub fn back_target(&self) -> (target: Option<String>)
        requires
            self@.wf(),
        ensures
            opt_view(target) == self@.back_target(),
    {
        if self.cursor > 0 {
            Some(self.history[self.cursor - 1].clone())
        } else {
            None
        }
    }

    /// Where `go_forward` would lead, without going there.
    pub fn forward_target(&self) -> (target: Option<String>)
        requires
            self@.wf(),
        ensures
            opt_view(target) == self@.forward_target(),
    {
        if self.cursor < self.history.len() - 1 {
            Some(self.history[self.cursor + 1].clone())
        } else {
            None
        }
    }

    /// Checks the invariant of the state at run time: the cursor points
    /// into the history, at the current location. Every state made by `new`
    /// and changed through the methods of this type passes.
    pub fn is_consistent(&self) -> (ok: bool)
        ensures
            ok == self@.wf(),
    {
        self.cursor < self.history.len() && self.history[self.cursor] == self.current
    }

    /// Commits a visit to `to` and returns the new current location.
    ///
    /// Entries after the cursor are discarded first, as a browser does. The
    /// target is not examined in any way.
    pub fn navigate(&mut self, to: String) -> (current: String)
        requires
            old(self)@.wf(),
        ensures
            final(self)@ == old(self)@.navigate(to@),
            final(self)@.wf(),
            final(self)@.history[final(self)@.cursor] == final(self)@.current,
            current@ == to@,
    {
        assert(self.cursor < self.history.len());
        self.history.truncate(self.cursor + 1);
        self.history.push(to.clone());
        self.cursor = self.history.len() - 1;
        self.current = to.clone();
        assert(self@.history =~= old(self)@.history.take(old(self)@.cursor + 1).push(to@));
        to
    }

    /// Steps back one entry and returns the location now on display, or does
    /// nothing and returns `None` at the oldest entry.
    pub fn go_back(&mut self) -> (target: Option<String>)
        requires
            old(self)@.wf(),
        ensures
            final(self)@ == old(self)@.go_back(),
            final(self)@.wf(),
            opt_view(target) == old(self)@.back_target(),
            old(self)@.cursor == 0 ==> target is None && final(self)@ == old(self)@,
    {
        if self.cursor > 0 {
            self.cursor = self.cursor - 1;
            self.current = self.history[self.cursor].clone();
            Some(self.current.clone())
        } else {
            None
        }
    }

    /// Steps forward one entry and returns the location now on display, or
    /// does nothing and returns `None` at the newest entry.
    pub fn go_forward(&mut self) -> (target: Option<String>)
        requires
            old(self)@.wf(),
        ensures
            final(self)@ == old(self)@.go_forward(),
            final(self)@.wf(),
            opt_view(target) == old(self)@.forward_target(),
            old(self)@.cursor == old(self)@.history.len() - 1 ==> target is None && final(self)@
                == old(self)@,
    {
        if self.cursor < self.history.len() - 1 {
            self.cursor = self.cursor + 1;
            self.current = self.history[self.cursor].clone();
            Some(self.current.clone())
        } else {
            None
        }
    }

    /// The parent of the current location under the platform's path rules,
    /// or `None` at a root. The state is left alone.
    pub fn parent(&self) -> (parent: Option<String>)
        ensures
            opt_view(parent) == path_parent(self@.current),
    {
        parent_of(self.current.as_str())
    }

    /// Commits the outcome of looking for a parent: a visit to `parent`
    /// when there is one, nothing when there is none. Returns the location
    /// moved to.
    pub fn go_up_to(&mut self, parent: Option<String>) -> (target: Option<String>)
        requires
            old(self)@.wf(),
        ensures
            final(self)@ == old(self)@.go_up(opt_view(parent)),
            final(self)@.wf(),
            opt_view(target) == opt_view(parent),
            parent matches Some(p) ==> final(self)@ == old(self)@.navigate(p@),
            parent is None ==> final(self)@ == old(self)@,
    {
        match parent {
            Some(p) => Some(self.navigate(p)),
            None => None,
        }
    }

    /// Moves to the parent of the current location, with the same effect on
    /// the history as `navigate`, and returns it. At a root nothing changes
    /// and `None` is returned.
    pub fn go_up(&mut self) -> (target: Option<String>)
        requires
            old(self)@.wf(),
        ensures
            final(self)@ == old(self)@.go_up(path_parent(old(self)@.current)),
            final(self)@.wf(),
            opt_view(target) == path_parent(old(self)@.current),
            path_parent(old(self)@.current) matches Some(p) ==> final(self)@ == old(self)@.navigate(p),
            path_parent(old(self)@.current) is None ==> target is None && final(self)@ == old(self)@,
    {
        let parent = self.parent();
        self.go_up_to(parent)
    }

    /// Sets the presentation preference. History and cursor are untouched.
    pub fn set_view_mode(&mut self, mode: ViewMode)
        ensures
            final(self)@ == old(self)@.set_view_mode(mode),
            final(self)@.history == old(self)@.history,
            final(self)@.cursor == old(self)@.cursor,
            final(self)@.current == old(self)@.current,
            final(self)@.view_mode == mode,
            old(self)@.wf() ==> final(self)@.wf(),
    {
        self.view_mode = mode;
    }
}

/// After every visit in a run of visits, however long, the entry under the
/// cursor is the current location.
pub proof fn lemma_navigate_all_keeps_current_under_cursor(
    m: NavigationModel,
    targets: Seq<Location>,
)
    requires
        m.wf(),
    ensures
        forall|k: int|
            0 <= k <= targets.len() ==> {
                let after = #[trigger] m.navigate_all(targets.take(k));
                &&& after.wf()
                &&& after.history[after.cursor] == after.current
            },
{
    assert forall|k: int| 0 <= k <= targets.len() implies (#[trigger] m.navigate_all(
        targets.take(k),
    )).wf() by {
        lemma_navigate_all_wf(m, targets.take(k));
    }
}

/// A run of visits leaves a well-formed state, with the last target current.
pub proof fn lemma_navigate_all_wf(m: NavigationModel, targets: Seq<Location>)
    requires
        m.wf(),
    ensures
        m.navigate_all(targets).wf(),
        targets.len() > 0 ==> m.navigate_all(targets).current == targets.last(),
    decreases targets.len(),
{
    if targets.len() > 0 {
        lemma_navigate_all_wf(m, targets.drop_last());
    }
}

/// Round trip: stepping back and then forward again restores the state,
/// current location and cursor included.
///
/// The one exception is left out: at the oldest of several entries stepping
/// back does nothing, and the step forward then moves on to the second entry.
pub proof fn lemma_back_then_forward_restores(m: NavigationModel)
    requires
        m.wf(),
        !(m.cursor == 0 && m.history.len() > 1),
    ensures
        m.go_back().go_forward() == m,
        m.go_back().go_forward().current == m.current,
        m.go_back().go_forward().cursor == m.cursor,
{
}

/// Truncate-then-push: a visit made after stepping back replaces the entry
/// stepped away from, and everything after it, by the new target alone.
///
/// From the oldest entry there is nothing to step back to; the visit then
/// keeps that entry and replaces the rest.
pub proof fn lemma_back_then_navigate_replaces_tail(m: NavigationModel, to: Location)
    requires
        m.wf(),
    ensures
        ({
            let after = m.go_back().navigate(to);
            &&& after.wf()
            &&& after.current == to
            &&& after.history.last() == to
            &&& !after.can_go_forward()
            &&& m.cursor > 0 ==> after.history == m.history.take(m.cursor).push(to) && after.cursor
                == m.cursor
            &&& m.cursor == 0 ==> after.history == seq![m.history[0], to] && after.cursor == 1
        }),
{
    let after = m.go_back().navigate(to);
    if m.cursor == 0 {
        assert(after.history =~= seq![m.history[0], to]);
    }
}

} // verus!
