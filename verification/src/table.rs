//! The table model: the displayed rows, their column widths, the selected row
//! and the scrollbar that follows it.

use crate::rows::{column_widths, constraint_len_calculator, views, PriceRow, PriceRowView};
use vstd::prelude::*;

verus! {

/// Height of one table row, in terminal lines.
pub const ITEM_HEIGHT: usize = 4;

/// The scrollbar's length for a table of `count` rows.
pub open spec fn scroll_extent(count: nat) -> nat {
    if count == 0 {
        0
    } else {
        ((count - 1) * ITEM_HEIGHT) as nat
    }
}

/// The row after `index` in a table of `count` rows, wrapping at the end.
pub open spec fn index_after(index: nat, count: nat) -> nat {
    if index + 1 >= count {
        0
    } else {
        index + 1
    }
}

/// The row before `index` in a table of `count` rows, wrapping at the start.
pub open spec fn index_before(index: nat, count: nat) -> nat {
    if index == 0 {
        if count == 0 {
            0
        } else {
            (count - 1) as nat
        }
    } else {
        (index - 1) as nat
    }
}

/// What a `Table` stands for.
pub struct TableView {
    pub rows: Seq<PriceRowView>,
    pub widths: (u16, u16),
    pub selected: Option<nat>,
    pub scroll_position: nat,
    pub scroll_length: nat,
}

impl TableView {
    /// The table that shows `rows` right after they arrived: the first row is
    /// selected, or none when there is no row.
    pub open spec fn fresh(rows: Seq<PriceRowView>) -> TableView {
        TableView {
            rows,
            widths: column_widths(rows),
            selected: if rows.len() == 0 {
                None
            } else {
                Some(0)
            },
            scroll_position: 0,
            scroll_length: scroll_extent(rows.len()),
        }
    }

    /// The same table with `index` selected and the scrollbar moved to it.
    pub open spec fn select(self, index: nat) -> TableView {
        TableView {
            selected: Some(index),
            scroll_position: index * ITEM_HEIGHT as nat,
            ..self
        }
    }

    /// The table after one step down. An empty table stays as it is.
    pub open spec fn next(self) -> TableView {
        if self.rows.len() == 0 {
            self
        } else {
            match self.selected {
                Some(index) => self.select(index_after(index, self.rows.len())),
                None => self.select(0),
            }
        }
    }

    /// The table after one step up. An empty table stays as it is.
    pub open spec fn previous(self) -> TableView {
        if self.rows.len() == 0 {
            self
        } else {
            match self.selected {
                Some(index) => self.select(index_before(index, self.rows.len())),
                None => self.select(0),
            }
        }
    }

    /// The selection names a row exactly when there is one, the scrollbar
    /// stands at the selected row, and the widths and the scrollbar's length
    /// are those of the rows.
    pub open spec fn wf(self) -> bool {
        &&& self.widths == column_widths(self.rows)
        &&& self.scroll_length == scroll_extent(self.rows.len())
        &&& match self.selected {
            Some(index) => index < self.rows.len() && self.scroll_position == index * ITEM_HEIGHT,
            None => self.rows.len() == 0 && self.scroll_position == 0,
        }
    }
}

/// The selected row and the scrollbar's position, which move together.
#[derive(Clone, Copy)]
struct Cursor {
    selected: Option<usize>,
    scroll_position: usize,
}

/// The displayed rows with what is derived from them.
pub struct Table {
    rows: Vec<PriceRow>,
    widths: (u16, u16),
    scroll_length: usize,
    cursor: Cursor,
}

impl View for Table {
    type V = TableView;

    closed spec fn view(&self) -> TableView {
        TableView {
            rows: views(self.rows@),
            widths: self.widths,
            selected: match self.cursor.selected {
                Some(index) => Some(index as nat),
                None => None,
            },
            scroll_position: self.cursor.scroll_position as nat,
            scroll_length: self.scroll_length as nat,
        }
    }
}

impl Table {
    /// What holds of every `Table` that the program holds.
    #[verifier::type_invariant]
    pub closed spec fn inv(self) -> bool {
        &&& self@.wf()
        &&& self.rows@.len() * ITEM_HEIGHT <= usize::MAX
    }

    /// Every `Table` that the program holds is well formed, and its scrollbar
    /// can be measured.
    pub proof fn lemma_inv_is_wf(self)
        requires
            self.inv(),
        ensures
            self@.wf(),
            self@.rows.len() * ITEM_HEIGHT <= usize::MAX,
    {
    }

    /// A table that shows `rows`, with the first row selected.
    pub fn new(rows: Vec<PriceRow>) -> (table: Table)
        requires
            rows@.len() * ITEM_HEIGHT <= usize::MAX,
        ensures
            table@ == TableView::fresh(views(rows@)),
            table@.wf(),
    {
        let widths = constraint_len_calculator(rows.as_slice());
        let count = rows.len();
        let scroll_length = if count == 0 {
            0
        } else {
            (count - 1) * ITEM_HEIGHT
        };
        let selected = if count == 0 {
            None
        } else {
            Some(0)
        };
        Table { rows, widths, scroll_length, cursor: Cursor { selected, scroll_position: 0 } }
    }

    /// Selects the row below the selected one; from the last row, the first.
    /// Does nothing to an empty table.
    pub fn next(&mut self)
        ensures
            final(self)@ == old(self)@.next(),
            final(self)@.wf(),
            old(self)@.rows.len() == 0 ==> final(self)@.selected is None,
        no_unwind
    {
        proof {
            use_type_invariant(&*self);
        }
        let count = self.rows.len();
        if count == 0 {
            return ;
        }
        let index = match self.cursor.selected {
            Some(index) => {
                if index >= count - 1 {
                    0
                } else {
                    index + 1
                }
            },
            None => 0,
        };
        self.cursor = Cursor { selected: Some(index), scroll_position: index * ITEM_HEIGHT };
    }

    /// Selects the row above the selected one; from the first row, the last.
    /// Does nothing to an empty table.
    pub fn previous(&mut self)
        ensures
            final(self)@ == old(self)@.previous(),
            final(self)@.wf(),
            old(self)@.rows.len() == 0 ==> final(self)@.selected is None,
        no_unwind
    {
        proof {
            use_type_invariant(&*self);
        }
        let count = self.rows.len();
        if count == 0 {
            return ;
        }
        let index = match self.cursor.selected {
            Some(index) => {
                if index == 0 {
                    count - 1
                } else {
                    index - 1
                }
            },
            None => 0,
        };
        self.cursor = Cursor { selected: Some(index), scroll_position: index * ITEM_HEIGHT };
    }

    /// The displayed rows, in the provider's order.
    pub fn rows(&self) -> (rows: &Vec<PriceRow>)
        ensures
            views(rows@) == self@.rows,
    {
        &self.rows
    }

    /// The number of displayed rows.
    pub fn len(&self) -> (count: usize)
        ensures
            count == self@.rows.len(),
    {
        self.rows.len()
    }

    /// The selected row, if the table has any.
    pub fn selected(&self) -> (selected: Option<usize>)
        ensures
            self@.selected == match selected {
                Some(index) => Some(index as nat),
                None => None,
            },
    {
        self.cursor.selected
    }

    /// The scrollbar's position: the selected row times the row height.
    pub fn scroll_position(&self) -> (position: usize)
        ensures
            position == self@.scroll_position,
    {
        self.cursor.scroll_position
    }

    /// The scrollbar's length.
    pub fn scroll_length(&self) -> (length: usize)
        ensures
            length == self@.scroll_length,
    {
        self.scroll_length
    }

    /// The widths of the symbol column and of the price column.
    pub fn widths(&self) -> (widths: (u16, u16))
        ensures
            widths == self@.widths,
    {
        self.widths
    }
}

} // verus!
