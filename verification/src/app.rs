//! The state of one table: its rows, the cursor, the theme and the column
//! layout.
//!
//! `AppView` is the mathematical model of a table and says what each operation
//! does. `App` is the table itself; its operations are stated over its view.

use crate::command::Command;
use crate::container_app;
use crate::data::{generate, has_columns, supplied, ResourceKind, Rows};
use crate::pod_app;
use crate::rs_app;
use crate::style::{palette, spec_palette, TableColors, ITEM_HEIGHT, PALETTE_COUNT};
use crate::width::column_widths;
use vstd::arithmetic::div_mod::{lemma_add_mod_noop, lemma_mod_self_0, lemma_small_mod};
use vstd::prelude::*;

verus! {

/// The width of each column of a table, by the kind of its rows.
#[derive(Clone, Copy, Debug)]
pub enum ColumnWidths {
    ReplicaSet((usize, usize, usize, usize, usize)),
    Pod((usize, usize, usize, usize)),
    Container((usize, usize)),
}

impl View for ColumnWidths {
    type V = Seq<nat>;

    open spec fn view(&self) -> Seq<nat> {
        match self {
            ColumnWidths::ReplicaSet(lens) => seq![
                lens.0 as nat,
                lens.1 as nat,
                lens.2 as nat,
                lens.3 as nat,
                lens.4 as nat,
            ],
            ColumnWidths::Pod(lens) => seq![lens.0 as nat, lens.1 as nat, lens.2 as nat, lens.3 as nat],
            ColumnWidths::Container(lens) => seq![lens.0 as nat, lens.1 as nat],
        }
    }
}

impl ColumnWidths {
    /// The kind of table that the widths belong to.
    pub open spec fn spec_kind(&self) -> ResourceKind {
        match self {
            ColumnWidths::ReplicaSet(_) => ResourceKind::ReplicaSet,
            ColumnWidths::Pod(_) => ResourceKind::Pod,
            ColumnWidths::Container(_) => ResourceKind::Container,
        }
    }
}

/// The width of each column of a table that holds `rows`.
pub fn compute_widths(rows: &Rows) -> (widths: ColumnWidths)
    ensures
        widths.spec_kind() == rows.spec_kind(),
        widths@ == column_widths(rows@, rows.spec_kind().column_count()),
{
    let widths = match rows {
        Rows::ReplicaSet(items) => ColumnWidths::ReplicaSet(
            rs_app::constraint_len_calculator(items.as_slice()),
        ),
        Rows::Pod(items) => ColumnWidths::Pod(pod_app::constraint_len_calculator(items.as_slice())),
        Rows::Container(items) => ColumnWidths::Container(
            container_app::constraint_len_calculator(items.as_slice()),
        ),
    };
    assert(widths@ =~= column_widths(rows@, rows.spec_kind().column_count()));
    widths
}

/// The index of the theme that a table of kind `kind` starts with.
pub open spec fn spec_initial_color_index(kind: ResourceKind) -> nat {
    match kind {
        ResourceKind::ReplicaSet => 0,
        ResourceKind::Pod => 1,
        ResourceKind::Container => 2,
    }
}

/// The index of the theme that a table of kind `kind` starts with.
pub fn initial_color_index(kind: ResourceKind) -> (index: usize)
    ensures
        index == spec_initial_color_index(kind),
{
    match kind {
        ResourceKind::ReplicaSet => 0,
        ResourceKind::Pod => 1,
        ResourceKind::Container => 2,
    }
}

/// The rows that a table of kind `kind` takes from `rows`: all of them if they
/// are of that kind, none otherwise.
pub open spec fn accepted_rows(kind: ResourceKind, rows: Rows) -> Seq<Seq<Seq<char>>> {
    if rows.spec_kind() == kind {
        rows@
    } else {
        Seq::empty()
    }
}

/// The model of a table. A row is the sequence of its cells.
pub struct AppView {
    pub kind: ResourceKind,
    pub rows: Seq<Seq<Seq<char>>>,
    pub selected: Option<nat>,
    pub scroll_offset: nat,
    pub color_index: nat,
    pub colors: TableColors,
    pub column_widths: Seq<nat>,
}

impl AppView {
    /// What holds of every table: a row is selected exactly if there are rows,
    /// the scroll position is that of the selected row, the theme is one of
    /// the table of themes, and the column widths are those of the rows.
    pub open spec fn wf(self) -> bool {
        &&& self.selected is None <==> self.rows.len() == 0
        &&& self.selected matches Some(i) ==> i < self.rows.len() && self.scroll_offset == i
            * ITEM_HEIGHT
        &&& self.selected is None ==> self.scroll_offset == 0
        &&& self.color_index < PALETTE_COUNT
        &&& self.column_widths == column_widths(self.rows, self.kind.column_count())
        &&& has_columns(self.rows, self.kind)
    }

    /// A new table of kind `kind` that holds `rows`: the first row is
    /// selected if there is one, and the colours are those of the first theme.
    pub open spec fn fresh(kind: ResourceKind, rows: Seq<Seq<Seq<char>>>) -> AppView {
        AppView {
            kind,
            rows,
            selected: if rows.len() > 0 {
                Some(0nat)
            } else {
                None
            },
            scroll_offset: 0,
            color_index: spec_initial_color_index(kind),
            colors: TableColors::spec_new(spec_palette(0)),
            column_widths: column_widths(rows, kind.column_count()),
        }
    }

    /// The table with row `index` selected and scrolled to.
    pub open spec fn select(self, index: nat) -> AppView {
        AppView { selected: Some(index), scroll_offset: index * (ITEM_HEIGHT as nat), ..self }
    }

    /// The table after the cursor has moved down one row, from the last row
    /// to the first; unchanged without rows.
    pub open spec fn next(self) -> AppView {
        match self.selected {
            Some(i) => self.select((i + 1) % self.rows.len()),
            None => self,
        }
    }

    /// The table after the cursor has moved up one row, from the first row to
    /// the last; unchanged without rows.
    pub open spec fn previous(self) -> AppView {
        match self.selected {
            Some(i) => self.select(
                if i == 0 {
                    (self.rows.len() - 1) as nat
                } else {
                    (i - 1) as nat
                },
            ),
            None => self,
        }
    }

    /// The table with the theme after the present one, the first after the
    /// last.
    pub open spec fn next_color(self) -> AppView {
        AppView { color_index: (self.color_index + 1) % (PALETTE_COUNT as nat), ..self }
    }

    /// The table with the theme before the present one, the last before the
    /// first.
    pub open spec fn previous_color(self) -> AppView {
        AppView {
            color_index: ((self.color_index + PALETTE_COUNT - 1) % (PALETTE_COUNT as int)) as nat,
            ..self
        }
    }

    /// The table with the colours of its present theme.
    pub open spec fn set_colors(self) -> AppView {
        AppView { colors: TableColors::spec_new(spec_palette(self.color_index as int)), ..self }
    }

    /// The table after `count` moves of the cursor down.
    pub open spec fn next_times(self, count: nat) -> AppView
        decreases count,
    {
        if count == 0 {
            self
        } else {
            self.next_times((count - 1) as nat).next()
        }
    }

    /// The table after `command`. The commands that change tables or end the
    /// program leave a table as it is.
    pub open spec fn apply(self, command: Command) -> AppView {
        match command {
            Command::SelectNext => self.next(),
            Command::SelectPrevious => self.previous(),
            Command::CyclePaletteForward => self.next_color(),
            Command::CyclePaletteBackward => self.previous_color(),
            Command::DrillDown => self,
            Command::Back => self,
            Command::Quit => self,
        }
    }

    /// The table after `commands`, one after the other.
    pub open spec fn apply_all(self, commands: Seq<Command>) -> AppView
        decreases commands.len(),
    {
        if commands.len() == 0 {
            self
        } else {
            self.apply_all(commands.drop_last()).apply(commands.last())
        }
    }

    /// The length of what the scroll bar spans: the scroll position of the
    /// last row.
    pub open spec fn content_length(self) -> nat {
        if self.rows.len() == 0 {
            0
        } else {
            ((self.rows.len() - 1) * ITEM_HEIGHT) as nat
        }
    }
}

/// A new table is well formed, if each of its rows has the cells of its kind.
pub proof fn lemma_fresh_wf(kind: ResourceKind, rows: Seq<Seq<Seq<char>>>)
    requires
        has_columns(rows, kind),
    ensures
        AppView::fresh(kind, rows).wf(),
{
}

/// Every operation keeps a table well formed.
pub proof fn lemma_operations_keep_wf(view: AppView)
    requires
        view.wf(),
    ensures
        view.next().wf(),
        view.previous().wf(),
        view.next_color().wf(),
        view.previous_color().wf(),
        view.set_colors().wf(),
        forall|command: Command| (#[trigger] view.apply(command)).wf(),
{
    if view.selected is Some {
        lemma_next_index(view.selected->0, view.rows.len());
    }
}

/// The row after row `index` of `count` rows is the next one, or the first
/// after the last.
pub proof fn lemma_next_index(index: nat, count: nat)
    requires
        index < count,
    ensures
        (index + 1) % count == if index + 1 == count {
            0nat
        } else {
            index + 1
        },
{
    if index + 1 < count {
        lemma_small_mod(index + 1, count);
    } else {
        lemma_mod_self_0(count as int);
    }
}

/// From the first row, `count` moves of the cursor down lead to row `count`
/// modulo the number of rows, whatever `count` is.
pub proof fn lemma_next_times(view: AppView, count: nat)
    requires
        view.wf(),
        view.rows.len() >= 1,
        view.selected == Some(0nat),
    ensures
        view.next_times(count).selected == Some(count % view.rows.len()),
        view.next_times(count).scroll_offset == (count % view.rows.len()) * ITEM_HEIGHT,
        view.next_times(count) == view.select(count % view.rows.len()),
    decreases count,
{
    let n = view.rows.len();
    if count == 0 {
        lemma_small_mod(0, n);
        assert(view.select(0) == view);
    } else {
        let before = (count - 1) as nat;
        lemma_next_times(view, before);
        lemma_add_mod_noop(before as int, 1, n as int);
        if n > 1 {
            lemma_small_mod(1, n);
        }
    }
}

/// From the first row, one move of the cursor up leads to the last row.
pub proof fn lemma_previous_wraps(view: AppView)
    requires
        view.wf(),
        view.rows.len() >= 1,
        view.selected == Some(0nat),
    ensures
        view.previous().selected == Some((view.rows.len() - 1) as nat),
{
}

/// After any sequence of commands the table is well formed; in particular the
/// scroll position is the selected row times the height of a row.
pub proof fn lemma_scroll_follows_selection(view: AppView, commands: Seq<Command>)
    requires
        view.wf(),
    ensures
        view.apply_all(commands).wf(),
        view.apply_all(commands).selected matches Some(i) ==> view.apply_all(commands).scroll_offset
            == i * ITEM_HEIGHT,
    decreases commands.len(),
{
    if commands.len() > 0 {
        lemma_scroll_follows_selection(view, commands.drop_last());
        lemma_operations_keep_wf(view.apply_all(commands.drop_last()));
    }
}

/// Going to the next theme and back, or back and then to the next, leaves a
/// table as it was.
pub proof fn lemma_color_cycle_round_trip(view: AppView)
    requires
        view.wf(),
    ensures
        view.next_color().previous_color() == view,
        view.previous_color().next_color() == view,
        view.next_color().previous_color().color_index == view.color_index,
{
}

/// The cursor of a table: the selected row and how far the table is scrolled.
#[derive(Clone, Copy, Debug)]
struct Cursor {
    selected: Option<usize>,
    scroll_offset: usize,
}

/// One table: the rows of one kind of resource, with the cursor, the theme and
/// the column layout. Every table is well formed in the sense of
/// `AppView::wf`.
#[derive(Debug)]
pub struct App {
    items: Rows,
    cursor: Cursor,
    longest_item_lens: ColumnWidths,
    colors: TableColors,
    color_index: usize,
}

/// A row index as a natural number.
pub open spec fn index_view(index: Option<usize>) -> Option<nat> {
    match index {
        Some(i) => Some(i as nat),
        None => None,
    }
}

impl View for App {
    type V = AppView;

    closed spec fn view(&self) -> AppView {
        AppView {
            kind: self.items.spec_kind(),
            rows: self.items@,
            selected: index_view(self.cursor.selected),
            scroll_offset: self.cursor.scroll_offset as nat,
            color_index: self.color_index as nat,
            colors: self.colors,
            column_widths: self.longest_item_lens@,
        }
    }
}

impl App {
    #[verifier::type_invariant]
    spec fn inv(self) -> bool {
        &&& self@.wf()
        &&& self.longest_item_lens.spec_kind() == self.items.spec_kind()
        &&& self.items@.len() * ITEM_HEIGHT <= usize::MAX
    }

    /// A table of kind `kind` over freshly generated rows.
    pub fn new(kind: ResourceKind) -> (app: App)
        ensures
            app@ == AppView::fresh(kind, app@.rows),
            supplied(kind, app@.rows),
            app@.wf(),
    {
        App::from_rows(kind, generate(kind))
    }

    /// A table of kind `kind` over `rows`. Rows of another kind are not
    /// shown: the table is then empty, as it is without rows.
    pub fn from_rows(kind: ResourceKind, rows: Rows) -> (app: App)
        requires
            rows@.len() * ITEM_HEIGHT <= usize::MAX,
        ensures
            app@ == AppView::fresh(kind, accepted_rows(kind, rows)),
            app@.wf(),
    {
        let items = if rows.kind() == kind {
            rows
        } else {
            Rows::empty(kind)
        };
        proof {
            items.lemma_row_lengths();
        }
        let selected: Option<usize> = if items.len() > 0 {
            Some(0)
        } else {
            None
        };
        let longest_item_lens = compute_widths(&items);
        App {
            cursor: Cursor { selected, scroll_offset: 0 },
            longest_item_lens,
            colors: TableColors::new(palette(0)),
            color_index: initial_color_index(kind),
            items,
        }
    }

    /// Moves the cursor down one row, from the last row to the first, and
    /// scrolls to it. Does nothing without rows.
    pub fn next(&mut self)
        ensures
            final(self)@ == old(self)@.next(),
            final(self)@.wf(),
        no_unwind
    {
        proof {
            use_type_invariant(&*self);
        }
        if let Some(i) = self.cursor.selected {
            proof {
                lemma_next_index(i as nat, self.items@.len());
            }
            let i: usize = if i >= self.items.len() - 1 {
                0
            } else {
                i + 1
            };
            self.cursor = Cursor { selected: Some(i), scroll_offset: i * ITEM_HEIGHT };
        }
    }

    /// Moves the cursor up one row, from the first row to the last, and
    /// scrolls to it. Does nothing without rows.
    pub fn previous(&mut self)
        ensures
            final(self)@ == old(self)@.previous(),
            final(self)@.wf(),
        no_unwind
    {
        proof {
            use_type_invariant(&*self);
        }
        if let Some(i) = self.cursor.selected {
            let i: usize = if i == 0 {
                self.items.len() - 1
            } else {
                i - 1
            };
            self.cursor = Cursor { selected: Some(i), scroll_offset: i * ITEM_HEIGHT };
        }
    }

    /// Goes to the next theme, from the last to the first.
    pub fn next_color(&mut self)
        ensures
            final(self)@ == old(self)@.next_color(),
            final(self)@.wf(),
        no_unwind
    {
        proof {
            use_type_invariant(&*self);
        }
        self.color_index = (self.color_index + 1) % PALETTE_COUNT;
    }

    /// Goes to the theme before, from the first to the last.
    pub fn previous_color(&mut self)
        ensures
            final(self)@ == old(self)@.previous_color(),
            final(self)@.wf(),
        no_unwind
    {
        proof {
            use_type_invariant(&*self);
        }
        let count = PALETTE_COUNT;
        self.color_index = (self.color_index + count - 1) % count;
    }

    /// Takes the colours of the present theme.
    pub fn set_colors(&mut self)
        ensures
            final(self)@ == old(self)@.set_colors(),
            final(self)@.wf(),
        no_unwind
    {
        proof {
            use_type_invariant(&*self);
        }
        self.colors = TableColors::new(palette(self.color_index));
    }

    /// The kind of the rows.
    pub fn kind(&self) -> (kind: ResourceKind)
        ensures
            kind == self@.kind,
        no_unwind
    {
        self.items.kind()
    }

    /// The rows.
    pub fn get_items(&self) -> (items: &Rows)
        ensures
            items@ == self@.rows,
            items.spec_kind() == self@.kind,
        no_unwind
    {
        &self.items
    }

    /// The selected row; `None` without rows.
    pub fn get_state(&self) -> (selected: Option<usize>)
        ensures
            index_view(selected) == self@.selected,
            self@.wf(),
        no_unwind
    {
        proof {
            use_type_invariant(self);
        }
        self.cursor.selected
    }

    /// The scroll position: the selected row times the height of a row.
    pub fn get_scroll_state(&self) -> (scroll_offset: usize)
        ensures
            scroll_offset == self@.scroll_offset,
        no_unwind
    {
        self.cursor.scroll_offset
    }

    /// The length of what the scroll bar spans: the scroll position of the
    /// last row, 0 without rows.
    pub fn scroll_content_length(&self) -> (length: usize)
        ensures
            length == self@.content_length(),
        no_unwind
    {
        proof {
            use_type_invariant(self);
        }
        let count = self.items.len();
        if count == 0 {
            0
        } else {
            (count - 1) * ITEM_HEIGHT
        }
    }

    /// The width of each column.
    pub fn longest_item_lens(&self) -> (lens: ColumnWidths)
        ensures
            lens@ == self@.column_widths,
            lens.spec_kind() == self@.kind,
        no_unwind
    {
        proof {
            use_type_invariant(self);
        }
        self.longest_item_lens
    }

    /// The colours that the table was last given.
    pub fn get_table_colors(&self) -> (colors: TableColors)
        ensures
            colors == self@.colors,
        no_unwind
    {
        self.colors
    }

    /// The index of the present theme.
    pub fn get_color_index(&self) -> (index: usize)
        ensures
            index == self@.color_index,
        no_unwind
    {
        self.color_index
    }
}

} // verus!
