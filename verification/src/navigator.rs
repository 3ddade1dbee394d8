//! Drill-down and back: one table is shown, and the tables that led to it wait
//! on a stack for the way back.

use crate::app::{accepted_rows, App, AppView};
use crate::command::Command;
use crate::app::{lemma_fresh_wf, lemma_operations_keep_wf};
use crate::data::{has_columns, supplied, ResourceKind, Rows};
use crate::style::ITEM_HEIGHT;
use vstd::prelude::*;

verus! {

/// The model of a navigator: the table shown, and the tables left by drilling
/// down, the first of them at the bottom.
pub struct NavigatorView {
    pub active: AppView,
    pub history: Seq<AppView>,
}

impl NavigatorView {
    /// What holds of every navigator: all its tables are well formed, and the
    /// history holds the ancestors of the table shown, from the replica sets
    /// down to its parent.
    pub open spec fn wf(self) -> bool {
        &&& self.active.wf()
        &&& self.history.len() == self.active.kind.depth()
        &&& forall|i: int|
            0 <= i < self.history.len() ==> (#[trigger] self.history[i]).wf()
                && self.history[i].kind.depth() == i
    }

    /// The navigator at startup: a new table of replica sets over `rows`, and
    /// no history.
    pub open spec fn start(rows: Seq<Seq<Seq<char>>>) -> NavigatorView {
        NavigatorView {
            active: AppView::fresh(ResourceKind::ReplicaSet, rows),
            history: Seq::empty(),
        }
    }

    /// The navigator after a drill-down to `next_kind` that was supplied with
    /// `rows`. Where `next_kind` is not the kind below that of the table
    /// shown, nothing changes. Otherwise the table shown goes on the history
    /// and a new table over `rows` is shown.
    pub open spec fn push(self, next_kind: ResourceKind, rows: Seq<Seq<Seq<char>>>) -> NavigatorView {
        if self.active.kind.spec_child() == Some(next_kind) {
            NavigatorView {
                active: AppView::fresh(next_kind, rows),
                history: self.history.push(self.active),
            }
        } else {
            self
        }
    }

    /// The navigator after going back: the table last left is shown again as
    /// it was left. Without history nothing changes.
    pub open spec fn pop(self) -> NavigatorView {
        if self.history.len() > 0 {
            NavigatorView { active: self.history.last(), history: self.history.drop_last() }
        } else {
            self
        }
    }

    /// The navigator after `command`, where a drill-down is supplied with
    /// `rows`.
    pub open spec fn apply(self, command: Command, rows: Seq<Seq<Seq<char>>>) -> NavigatorView {
        match command {
            Command::DrillDown => match self.active.kind.spec_child() {
                Some(next_kind) => self.push(next_kind, rows),
                None => self,
            },
            Command::Back => self.pop(),
            Command::Quit => self,
            _ => NavigatorView { active: self.active.apply(command), ..self },
        }
    }
}

/// The history never holds more than two tables, and its top is a table of
/// the kind above that of the table shown.
pub proof fn lemma_history_bounded(nav: NavigatorView)
    requires
        nav.wf(),
    ensures
        nav.history.len() <= 2,
        nav.history.len() > 0 ==> nav.history.last().kind.spec_child() == Some(nav.active.kind),
{
    if nav.history.len() > 0 {
        assert(nav.history[nav.history.len() - 1].wf());
    }
}

/// A drill-down keeps a navigator well formed, if the rows supplied have the
/// cells of their kind.
pub proof fn lemma_push_keeps_wf(nav: NavigatorView, next_kind: ResourceKind, rows: Seq<Seq<Seq<char>>>)
    requires
        nav.wf(),
        has_columns(rows, next_kind),
    ensures
        nav.push(next_kind, rows).wf(),
{
    lemma_fresh_wf(next_kind, rows);
    let pushed = nav.push(next_kind, rows);
    assert forall|i: int| 0 <= i < pushed.history.len() implies (#[trigger] pushed.history[i]).wf()
        && pushed.history[i].kind.depth() == i by {
        if i < nav.history.len() {
            assert(nav.history[i].wf());
        }
    }
}

/// Going back keeps a navigator well formed.
pub proof fn lemma_pop_keeps_wf(nav: NavigatorView)
    requires
        nav.wf(),
    ensures
        nav.pop().wf(),
{
    let popped = nav.pop();
    if nav.history.len() > 0 {
        assert(nav.history[nav.history.len() - 1].wf());
        assert forall|i: int| 0 <= i < popped.history.len() implies (#[trigger] popped.history[i]).wf()
            && popped.history[i].kind.depth() == i by {
            assert(nav.history[i].wf());
        }
    }
}

/// Every command keeps a navigator well formed, if the rows that a drill-down
/// is supplied with have the cells of the kind below that of the table shown.
pub proof fn lemma_apply_keeps_wf(nav: NavigatorView, command: Command, rows: Seq<Seq<Seq<char>>>)
    requires
        nav.wf(),
        nav.active.kind.spec_child() matches Some(next_kind) ==> has_columns(rows, next_kind),
    ensures
        nav.apply(command, rows).wf(),
{
    lemma_operations_keep_wf(nav.active);
    lemma_pop_keeps_wf(nav);
    if let Some(next_kind) = nav.active.kind.spec_child() {
        lemma_push_keeps_wf(nav, next_kind, rows);
    }
}

/// A drill-down followed by going back leaves the navigator as it was: the
/// table left is shown again with its selection, scroll position and theme,
/// and the history is what it was.
pub proof fn lemma_push_pop_round_trip(
    nav: NavigatorView,
    next_kind: ResourceKind,
    rows: Seq<Seq<Seq<char>>>,
)
    requires
        nav.active.kind.spec_child() == Some(next_kind),
    ensures
        nav.push(next_kind, rows).pop() == nav,
        nav.push(next_kind, rows).pop().active.selected == nav.active.selected,
        nav.push(next_kind, rows).pop().active.scroll_offset == nav.active.scroll_offset,
{
    assert(nav.history.push(nav.active).drop_last() =~= nav.history);
}

/// Going back without history changes nothing.
pub proof fn lemma_pop_empty(nav: NavigatorView)
    requires
        nav.history.len() == 0,
    ensures
        nav.pop() == nav,
{
}

/// A drill-down from a table of containers changes nothing, whatever kind is
/// asked for and whatever rows are supplied.
pub proof fn lemma_push_from_container(
    nav: NavigatorView,
    next_kind: ResourceKind,
    rows: Seq<Seq<Seq<char>>>,
)
    requires
        nav.active.kind == ResourceKind::Container,
    ensures
        nav.push(next_kind, rows) == nav,
{
}

/// A drill-down to any kind but the one below that of the table shown changes
/// nothing.
pub proof fn lemma_push_off_chain(
    nav: NavigatorView,
    next_kind: ResourceKind,
    rows: Seq<Seq<Seq<char>>>,
)
    requires
        nav.active.kind.spec_child() != Some(next_kind),
    ensures
        nav.push(next_kind, rows) == nav,
{
}

/// The navigator: the table shown and the tables to go back to.
#[derive(Debug)]
pub struct Navigator {
    active: App,
    history: Vec<App>,
}

impl View for Navigator {
    type V = NavigatorView;

    closed spec fn view(&self) -> NavigatorView {
        NavigatorView {
            active: self.active@,
            history: Seq::new(self.history@.len(), |i: int| self.history@[i]@),
        }
    }
}

impl Navigator {
    #[verifier::type_invariant]
    spec fn inv(self) -> bool {
        self@.wf()
    }

    /// The navigator at startup, over freshly generated replica sets.
    pub fn new() -> (nav: Navigator)
        ensures
            nav@ == NavigatorView::start(nav@.active.rows),
            supplied(ResourceKind::ReplicaSet, nav@.active.rows),
            nav@.wf(),
    {
        let nav = Navigator { active: App::new(ResourceKind::ReplicaSet), history: Vec::new() };
        assert(nav@.history =~= Seq::empty());
        nav
    }

    /// The navigator at startup, over `rows`. Rows that are not replica sets
    /// are not shown.
    pub fn from_rows(rows: Rows) -> (nav: Navigator)
        requires
            rows@.len() * ITEM_HEIGHT <= usize::MAX,
        ensures
            nav@ == NavigatorView::start(accepted_rows(ResourceKind::ReplicaSet, rows)),
            nav@.wf(),
    {
        let nav = Navigator {
            active: App::from_rows(ResourceKind::ReplicaSet, rows),
            history: Vec::new(),
        };
        assert(nav@.history =~= Seq::empty());
        nav
    }

    /// Drills down to `next_kind` over freshly generated rows. Does nothing
    /// unless `next_kind` is the kind below that of the table shown.
    pub fn push(&mut self, next_kind: ResourceKind)
        ensures
            final(self)@ == old(self)@.push(next_kind, final(self)@.active.rows),
            old(self)@.active.kind.spec_child() == Some(next_kind) ==> supplied(
                next_kind,
                final(self)@.active.rows,
            ),
            final(self)@.wf(),
    {
        proof {
            use_type_invariant(&*self);
        }
        if self.active.kind().child() == Some(next_kind) {
            self.install(App::new(next_kind));
        }
    }

    /// Drills down to `next_kind` over `rows`. Does nothing unless
    /// `next_kind` is the kind below that of the table shown. Rows of another
    /// kind than `next_kind` are not shown.
    pub fn push_rows(&mut self, next_kind: ResourceKind, rows: Rows)
        requires
            rows@.len() * ITEM_HEIGHT <= usize::MAX,
        ensures
            final(self)@ == old(self)@.push(next_kind, accepted_rows(next_kind, rows)),
            final(self)@.wf(),
    {
        proof {
            use_type_invariant(&*self);
        }
        if self.active.kind().child() == Some(next_kind) {
            self.install(App::from_rows(next_kind, rows));
        }
    }

    /// Shows `table` and puts the table shown so far on the history.
    fn install(&mut self, table: App)
        requires
            old(self)@.active.kind.spec_child() == Some(table@.kind),
            table@.wf(),
        ensures
            final(self)@.active == table@,
            final(self)@.history == old(self)@.history.push(old(self)@.active),
            final(self)@.wf(),
    {
        proof {
            use_type_invariant(&*self);
        }
        let mut taken = Navigator {
            active: App::from_rows(ResourceKind::ReplicaSet, Rows::empty(ResourceKind::ReplicaSet)),
            history: Vec::new(),
        };
        std::mem::swap(self, &mut taken);
        let Navigator { active, mut history } = taken;
        let ghost before = Navigator { active, history }@;
        history.push(active);
        proof {
            let after = Navigator { active: table, history }@;
            assert(after.history =~= before.history.push(before.active));
            assert forall|i: int| 0 <= i < after.history.len() implies (#[trigger] after.history[i]).wf()
                && after.history[i].kind.depth() == i by {
                if i < before.history.len() {
                    assert(before.history[i].wf());
                }
            }
        }
        *self = Navigator { active: table, history };
    }

    /// Goes back to the table last left and shows it as it was left. Does
    /// nothing without history.
    pub fn pop(&mut self)
        ensures
            final(self)@ == old(self)@.pop(),
            final(self)@.wf(),
    {
        proof {
            use_type_invariant(&*self);
        }
        if self.history.len() > 0 {
            let mut taken = Navigator {
                active: App::from_rows(ResourceKind::ReplicaSet, Rows::empty(ResourceKind::ReplicaSet)),
                history: Vec::new(),
            };
            std::mem::swap(self, &mut taken);
            let Navigator { active, mut history } = taken;
            let ghost before = Navigator { active, history }@;
            match history.pop() {
                Some(previous) => {
                    proof {
                        let after = Navigator { active: previous, history }@;
                        assert(after.history =~= before.history.drop_last());
                        assert(before.history[before.history.len() - 1].wf());
                        assert forall|i: int| 0 <= i < after.history.len() implies (
                        #[trigger] after.history[i]).wf() && after.history[i].kind.depth() == i by {
                            assert(before.history[i].wf());
                        }
                    }
                    *self = Navigator { active: previous, history };
                },
                None => {
                    *self = Navigator { active, history };
                },
            }
        }
    }

    /// Carries out `command` and says whether the program is to end, which is
    /// so for `Quit` alone. A drill-down goes to the kind below that of the
    /// table shown, over freshly generated rows.
    pub fn apply(&mut self, command: Command) -> (quit: bool)
        ensures
            quit == (command == Command::Quit),
            final(self)@ == old(self)@.apply(command, final(self)@.active.rows),
            command == Command::DrillDown ==> (old(self)@.active.kind.spec_child() matches Some(
                next_kind,
            ) ==> supplied(next_kind, final(self)@.active.rows)),
            final(self)@.wf(),
    {
        proof {
            use_type_invariant(&*self);
        }
        match command {
            Command::SelectNext => {
                self.active.next();
                false
            },
            Command::SelectPrevious => {
                self.active.previous();
                false
            },
            Command::CyclePaletteForward => {
                self.active.next_color();
                false
            },
            Command::CyclePaletteBackward => {
                self.active.previous_color();
                false
            },
            Command::DrillDown => {
                match self.active.kind().child() {
                    Some(next_kind) => {
                        self.push(next_kind);
                    },
                    None => {},
                }
                false
            },
            Command::Back => {
                self.pop();
                false
            },
            Command::Quit => true,
        }
    }

    /// Gives the table shown the colours of its present theme.
    pub fn set_colors(&mut self)
        ensures
            final(self)@ == (NavigatorView { active: old(self)@.active.set_colors(), ..old(self)@ }),
            final(self)@.wf(),
    {
        proof {
            use_type_invariant(&*self);
        }
        self.active.set_colors();
    }

    /// The table shown.
    pub fn active(&self) -> (table: &App)
        ensures
            table@ == self@.active,
            self@.wf(),
    {
        proof {
            use_type_invariant(self);
        }
        &self.active
    }

    /// How many tables wait on the history: none at the replica sets, one at
    /// the pods, two at the containers.
    pub fn depth(&self) -> (depth: usize)
        ensures
            depth == self@.history.len(),
            depth == self@.active.kind.depth(),
    {
        proof {
            use_type_invariant(self);
        }
        self.history.len()
    }
}

} // verus!
