use vstd::prelude::*;

use crate::filter::FilterModel;
use crate::record::{user_key, Record};
use crate::selection::{
    next_selection, next_spec, previous_selection, previous_spec, reconcile, reconciled,
    scroll_offset, select_index, select_spec, selection_valid,
};
use crate::table::{EventTable, TableModel};

verus! {

/// How the table and the detail pane are placed beside each other.
#[derive(PartialEq, Eq, Structural, Clone, Copy, Debug)]
pub enum Orientation {
    Horizontal,
    Vertical,
}

/// One user action.
#[derive(PartialEq, Eq, Structural, Clone, Copy, Debug)]
pub enum Command {
    Quit,
    First,
    Last,
    Down,
    Up,
    PageDown,
    PageUp,
    ExcludeEventId,
    IncludeEventId,
    ExcludeUser,
    IncludeUser,
    ResetFilter,
    ChangeOrientation,
    IncreaseTableSize,
    DecreaseTableSize,
}

impl Command {
    /// The command a character key stands for, if any.
    pub fn from_char(c: char) -> (r: Option<Command>)
        ensures
            r == match c {
                'q' => Some(Command::Quit),
                'g' => Some(Command::First),
                'G' => Some(Command::Last),
                'E' => Some(Command::ExcludeEventId),
                'e' => Some(Command::IncludeEventId),
                'U' => Some(Command::ExcludeUser),
                'u' => Some(Command::IncludeUser),
                'R' => Some(Command::ResetFilter),
                'o' => Some(Command::ChangeOrientation),
                '+' => Some(Command::IncreaseTableSize),
                '-' => Some(Command::DecreaseTableSize),
                _ => None,
            },
    {
        match c {
            'q' => Some(Command::Quit),
            'g' => Some(Command::First),
            'G' => Some(Command::Last),
            'E' => Some(Command::ExcludeEventId),
            'e' => Some(Command::IncludeEventId),
            'U' => Some(Command::ExcludeUser),
            'u' => Some(Command::IncludeUser),
            'R' => Some(Command::ResetFilter),
            'o' => Some(Command::ChangeOrientation),
            '+' => Some(Command::IncreaseTableSize),
            '-' => Some(Command::DecreaseTableSize),
            _ => None,
        }
    }
}

/// Smallest share of the screen, in percent, that either pane keeps.
pub const MIN_PANE_PERCENTAGE: u16 = 3;

/// What an `App` stands for.
pub struct AppModel {
    pub table: TableModel,
    pub selection: Option<usize>,
    pub exit: bool,
    pub viewport_height: u16,
    pub orientation: Orientation,
    pub table_percentage: u16,
}

impl AppModel {
    pub open spec fn wf(self) -> bool {
        &&& self.table.wf()
        &&& selection_valid(self.selection, self.table.view.len())
        &&& MIN_PANE_PERCENTAGE <= self.table_percentage <= 100 - MIN_PANE_PERCENTAGE
    }

    /// The record under the cursor.
    pub open spec fn selected_record(self) -> Option<Record> {
        match self.selection {
            Some(i) => Some(self.table.records[self.table.view[i as int] as int]),
            None => None,
        }
    }

    /// The selection after jumping to the last row.
    pub open spec fn last_selection(self) -> Option<usize> {
        let len = self.table.view.len();
        select_spec(if len == 0 { 0 } else { (len - 1) as usize }, len)
    }

    /// Rows that a page moves: half the viewport.
    pub open spec fn page(self) -> nat {
        (self.viewport_height / 2) as nat
    }

    /// The filter after a command, for the commands that change it.
    pub open spec fn filter_after(self, cmd: Command) -> FilterModel {
        let f = self.table.filter;
        match (cmd, self.selected_record()) {
            (Command::ExcludeEventId, Some(r)) => f.exclude_id(r.event_id),
            (Command::IncludeEventId, Some(r)) => f.include_id(r.event_id),
            (Command::ExcludeUser, Some(r)) => f.exclude_user(user_key(r.user)),
            (Command::IncludeUser, Some(r)) => f.include_user(user_key(r.user)),
            (Command::ResetFilter, _) => f.reset(),
            _ => f,
        }
    }

    /// The same state after the table changed to `t`, with the selection
    /// reconciled to the new view.
    pub open spec fn with_table(self, t: TableModel) -> AppModel {
        AppModel { table: t, selection: reconciled(self.selection, t.view.len()), ..self }
    }
}

/// The viewer's state: the table, the selection, and the layout of the panes.
pub struct App {
    table: EventTable,
    selection: Option<usize>,
    exit: bool,
    viewport_height: u16,
    orientation: Orientation,
    table_percentage: u16,
}

impl View for App {
    type V = AppModel;

    closed spec fn view(&self) -> AppModel {
        AppModel {
            table: self.table@,
            selection: self.selection,
            exit: self.exit,
            viewport_height: self.viewport_height,
            orientation: self.orientation,
            table_percentage: self.table_percentage,
        }
    }
}

impl App {
    pub fn new() -> (r: App)
        ensures
            r@.wf(),
            r@.table.records == Seq::<Record>::empty(),
            r@.table.filter == FilterModel::empty(),
            r@.selection == None::<usize>,
            !r@.exit,
            r@.viewport_height == 0,
            r@.orientation == Orientation::Horizontal,
            r@.table_percentage == 50,
    {
        App {
            table: EventTable::new(),
            selection: None,
            exit: false,
            viewport_height: 0,
            orientation: Orientation::Horizontal,
            table_percentage: 50,
        }
    }

    pub fn table(&self) -> (r: &EventTable)
        ensures
            r@ == self@.table,
    {
        &self.table
    }

    pub fn selected(&self) -> (r: Option<usize>)
        ensures
            r == self@.selection,
    {
        self.selection
    }

    pub fn should_exit(&self) -> (r: bool)
        ensures
            r == self@.exit,
    {
        self.exit
    }

    pub fn orientation(&self) -> (r: Orientation)
        ensures
            r == self@.orientation,
    {
        self.orientation
    }

    pub fn table_percentage(&self) -> (r: u16)
        ensures
            r == self@.table_percentage,
    {
        self.table_percentage
    }

    pub fn viewport_height(&self) -> (r: u16)
        ensures
            r == self@.viewport_height,
    {
        self.viewport_height
    }

    /// Records the height, in rows, that the table was last drawn with.
    pub fn set_viewport_height(&mut self, height: u16)
        ensures
            final(self)@ == (AppModel { viewport_height: height, ..old(self)@ }),
    {
        self.viewport_height = height;
    }

    /// Takes in a newly parsed record; the view grows by it if it passes, and
    /// the selection is reconciled.
    pub fn append_record(&mut self, record: Record)
        requires
            old(self)@.wf(),
            old(self)@.table.records.len() < usize::MAX,
        ensures
            final(self)@.wf(),
            final(self)@.table.records == old(self)@.table.records.push(record),
            final(self)@.table.filter == old(self)@.table.filter,
            final(self)@.table.view == if old(self)@.table.filter.passes(record) {
                old(self)@.table.view.push(old(self)@.table.records.len() as usize)
            } else {
                old(self)@.table.view
            },
            final(self)@ == old(self)@.with_table(final(self)@.table),
    {
        self.table.append(record);
        self.selection = reconcile(self.selection, self.table.len());
    }

    /// Asks the control loop to stop.
    pub fn exit(&mut self)
        ensures
            final(self)@ == (AppModel { exit: true, ..old(self)@ }),
    {
        self.exit = true;
    }

    /// Selects a row of the view, clamped to the last one.
    pub fn set_selected(&mut self, idx: usize)
        requires
            old(self)@.wf(),
        ensures
            final(self)@.wf(),
            final(self)@ == (AppModel { selection: select_spec(idx, old(self)@.table.view.len()), ..old(self)@ }),
    {
        self.selection = select_index(idx, self.table.len());
    }

    /// Moves the selection down by `steps` rows, stopping at the last one.
    pub fn next(&mut self, steps: usize)
        requires
            old(self)@.wf(),
            steps > 0,
        ensures
            final(self)@.wf(),
            final(self)@ == (AppModel {
                selection: next_spec(old(self)@.selection, steps as nat, old(self)@.table.view.len()),
                ..old(self)@
            }),
    {
        self.selection = next_selection(self.selection, steps, self.table.len());
    }

    /// Moves the selection up by `steps` rows, stopping at the first one.
    pub fn previous(&mut self, steps: usize)
        requires
            old(self)@.wf(),
            steps > 0,
        ensures
            final(self)@.wf(),
            final(self)@ == (AppModel {
                selection: previous_spec(old(self)@.selection, steps as nat, old(self)@.table.view.len()),
                ..old(self)@
            }),
    {
        self.selection = previous_selection(self.selection, steps, self.table.len());
    }

    /// Excludes the event identifier of the record under the cursor.
    pub fn exclude_event_id(&mut self)
        requires
            old(self)@.wf(),
        ensures
            final(self)@.wf(),
            final(self)@ == old(self)@.with_table(final(self)@.table),
            final(self)@.table.records == old(self)@.table.records,
            final(self)@.table.filter == match old(self)@.selected_record() {
                Some(r) => old(self)@.table.filter.exclude_id(r.event_id),
                None => old(self)@.table.filter,
            },
    {
        if let Some(i) = self.selection {
            let id = self.table.record(i).event_id;
            self.table.exclude_event_id(id);
            self.selection = reconcile(self.selection, self.table.len());
        } else {
            proof { self.lemma_reconcile_empty(); }
        }
    }

    /// Includes the event identifier of the record under the cursor.
    pub fn include_event_id(&mut self)
        requires
            old(self)@.wf(),
        ensures
            final(self)@.wf(),
            final(self)@ == old(self)@.with_table(final(self)@.table),
            final(self)@.table.records == old(self)@.table.records,
            final(self)@.table.filter == match old(self)@.selected_record() {
                Some(r) => old(self)@.table.filter.include_id(r.event_id),
                None => old(self)@.table.filter,
            },
    {
        if let Some(i) = self.selection {
            let id = self.table.record(i).event_id;
            self.table.include_event_id(id);
            self.selection = reconcile(self.selection, self.table.len());
        } else {
            proof { self.lemma_reconcile_empty(); }
        }
    }

    /// Excludes the user of the record under the cursor.
    pub fn exclude_user(&mut self)
        requires
            old(self)@.wf(),
        ensures
            final(self)@.wf(),
            final(self)@ == old(self)@.with_table(final(self)@.table),
            final(self)@.table.records == old(self)@.table.records,
            final(self)@.table.filter == match old(self)@.selected_record() {
                Some(r) => old(self)@.table.filter.exclude_user(user_key(r.user)),
                None => old(self)@.table.filter,
            },
    {
        if let Some(i) = self.selection {
            let user = self.table.record(i).user_cloned();
            self.table.exclude_user(user);
            self.selection = reconcile(self.selection, self.table.len());
        } else {
            proof { self.lemma_reconcile_empty(); }
        }
    }

    /// Includes the user of the record under the cursor.
    pub fn include_user(&mut self)
        requires
            old(self)@.wf(),
        ensures
            final(self)@.wf(),
            final(self)@ == old(self)@.with_table(final(self)@.table),
            final(self)@.table.records == old(self)@.table.records,
            final(self)@.table.filter == match old(self)@.selected_record() {
                Some(r) => old(self)@.table.filter.include_user(user_key(r.user)),
                None => old(self)@.table.filter,
            },
    {
        if let Some(i) = self.selection {
            let user = self.table.record(i).user_cloned();
            self.table.include_user(user);
            self.selection = reconcile(self.selection, self.table.len());
        } else {
            proof { self.lemma_reconcile_empty(); }
        }
    }

    /// Clears the filter; the view becomes every record.
    pub fn reset_filter(&mut self)
        requires
            old(self)@.wf(),
        ensures
            final(self)@.wf(),
            final(self)@ == old(self)@.with_table(final(self)@.table),
            final(self)@.table.records == old(self)@.table.records,
            final(self)@.table.filter == old(self)@.table.filter.reset(),
    {
        self.table.reset_filter();
        self.selection = reconcile(self.selection, self.table.len());
    }

    /// Widens the table pane by one percent, leaving the other pane its share.
    pub fn increase_table_size(&mut self)
        requires
            old(self)@.wf(),
        ensures
            final(self)@.wf(),
            final(self)@ == (AppModel {
                table_percentage: if old(self)@.table_percentage < 100 - MIN_PANE_PERCENTAGE {
                    (old(self)@.table_percentage + 1) as u16
                } else {
                    old(self)@.table_percentage
                },
                ..old(self)@
            }),
    {
        if self.table_percentage < 100 - MIN_PANE_PERCENTAGE {
            self.table_percentage = self.table_percentage + 1;
        }
    }

    /// Narrows the table pane by one percent, keeping it at its least share.
    pub fn decrease_table_size(&mut self)
        requires
            old(self)@.wf(),
        ensures
            final(self)@.wf(),
            final(self)@ == (AppModel {
                table_percentage: if old(self)@.table_percentage > MIN_PANE_PERCENTAGE {
                    (old(self)@.table_percentage - 1) as u16
                } else {
                    old(self)@.table_percentage
                },
                ..old(self)@
            }),
    {
        if self.table_percentage > MIN_PANE_PERCENTAGE {
            self.table_percentage = self.table_percentage - 1;
        }
    }

    /// Switches between side by side and stacked panes.
    pub fn change_orientation(&mut self)
        ensures
            final(self)@ == (AppModel {
                orientation: match old(self)@.orientation {
                    Orientation::Horizontal => Orientation::Vertical,
                    Orientation::Vertical => Orientation::Horizontal,
                },
                ..old(self)@
            }),
    {
        self.orientation = match self.orientation {
            Orientation::Horizontal => Orientation::Vertical,
            Orientation::Vertical => Orientation::Horizontal,
        };
    }

    /// Carries out one user action.
    pub fn handle_command(&mut self, cmd: Command)
        requires
            old(self)@.wf(),
        ensures
            final(self)@.wf(),
            ({
                let o = old(self)@;
                let len = o.table.view.len();
                match cmd {
                    Command::Quit => final(self)@ == AppModel { exit: true, ..o },
                    Command::First => final(self)@ == AppModel { selection: select_spec(0, len), ..o },
                    Command::Last => final(self)@ == AppModel { selection: o.last_selection(), ..o },
                    Command::Down => final(self)@ == AppModel { selection: next_spec(o.selection, 1, len), ..o },
                    Command::Up => final(self)@ == AppModel { selection: previous_spec(o.selection, 1, len), ..o },
                    Command::PageDown => final(self)@ == if o.page() == 0 {
                        o
                    } else {
                        AppModel { selection: next_spec(o.selection, o.page(), len), ..o }
                    },
                    Command::PageUp => final(self)@ == if o.page() == 0 {
                        o
                    } else {
                        AppModel { selection: previous_spec(o.selection, o.page(), len), ..o }
                    },
                    Command::ChangeOrientation => final(self)@ == AppModel {
                        orientation: match o.orientation {
                            Orientation::Horizontal => Orientation::Vertical,
                            Orientation::Vertical => Orientation::Horizontal,
                        },
                        ..o
                    },
                    Command::IncreaseTableSize => final(self)@ == AppModel {
                        table_percentage: if o.table_percentage < 100 - MIN_PANE_PERCENTAGE {
                            (o.table_percentage + 1) as u16
                        } else {
                            o.table_percentage
                        },
                        ..o
                    },
                    Command::DecreaseTableSize => final(self)@ == AppModel {
                        table_percentage: if o.table_percentage > MIN_PANE_PERCENTAGE {
                            (o.table_percentage - 1) as u16
                        } else {
                            o.table_percentage
                        },
                        ..o
                    },
                    _ => {
                        &&& final(self)@ == o.with_table(final(self)@.table)
                        &&& final(self)@.table.records == o.table.records
                        &&& final(self)@.table.filter == o.filter_after(cmd)
                    },
                }
            }),
    {
        match cmd {
            Command::Quit => self.exit(),
            Command::First => self.set_selected(0),
            Command::Last => {
                let len = self.table.len();
                self.set_selected(if len == 0 { 0 } else { len - 1 });
            },
            Command::Down => self.next(1),
            Command::Up => self.previous(1),
            Command::PageDown => {
                let page = (self.viewport_height / 2) as usize;
                if page > 0 {
                    self.next(page);
                }
            },
            Command::PageUp => {
                let page = (self.viewport_height / 2) as usize;
                if page > 0 {
                    self.previous(page);
                }
            },
            Command::ExcludeEventId => self.exclude_event_id(),
            Command::IncludeEventId => self.include_event_id(),
            Command::ExcludeUser => self.exclude_user(),
            Command::IncludeUser => self.include_user(),
            Command::ResetFilter => self.reset_filter(),
            Command::ChangeOrientation => self.change_orientation(),
            Command::IncreaseTableSize => self.increase_table_size(),
            Command::DecreaseTableSize => self.decrease_table_size(),
        }
    }

    /// The detail text of the record under the cursor.
    pub fn selected_content(&self) -> (r: Option<&String>)
        requires
            self@.wf(),
        ensures
            r == match self@.selected_record() {
                Some(rec) => Some(&rec.content),
                None => None,
            },
    {
        match self.selection {
            Some(i) => Some(&self.table.record(i).content),
            None => None,
        }
    }

    /// The table's scrollbar: the selected row, and the number of rows.
    pub fn table_scrollbar(&self) -> (r: (usize, usize))
        ensures
            r.0 == match self@.selection {
                Some(i) => i,
                None => 0,
            },
            r.1 == self@.table.view.len(),
    {
        let position = match self.selection {
            Some(i) => i,
            None => 0,
        };
        (position, self.table.len())
    }

    /// The rows of the view on screen, as the half-open range `r.0 .. r.1`:
    /// the window of the viewport's height that starts at the smallest offset
    /// keeping the selected row visible.
    pub fn visible_window(&self) -> (r: (usize, usize))
        requires
            self@.wf(),
        ensures
            ({
                let sel = match self@.selection {
                    Some(i) => i as int,
                    None => 0,
                };
                let h = self@.viewport_height as int;
                let len = self@.table.view.len() as int;
                &&& r.0 == if sel < h { 0 } else if h == 0 { sel } else { sel + 1 - h }
                &&& r.1 == if r.0 + h < len { r.0 + h } else { len }
                &&& r.0 <= r.1
            }),
    {
        let sel = match self.selection {
            Some(i) => i,
            None => 0,
        };
        let h = self.viewport_height as usize;
        let len = self.table.len();
        let start = scroll_offset(sel, h);
        let end = if h < len - start { start + h } else { len };
        (start, end)
    }

    proof fn lemma_reconcile_empty(&self)
        requires
            self@.wf(),
            self@.selection is None,
        ensures
            self@ == self@.with_table(self@.table),
    {
    }
}

} // verus!
