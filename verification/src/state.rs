//! The state of a binder viewer: the selected card, the capacity that bounds
//! it and the binder, with the changes that the viewer's controls make to it
//! and the quantities that it shows.

use crate::binder::{Binder, BinderSlot};
use crate::card_number::CardNumber;
use crate::positive::Positive;
use vstd::prelude::*;

verus! {

/// One of the two page tables of an open binder.
#[derive(Debug, Clone, Copy, PartialEq, Eq, Structural)]
pub enum CardTable {
    /// The table on the left.
    Left,
    /// The table on the right.
    Right,
}

/// What the viewer holds between two frames.
#[derive(Debug, PartialEq, Structural)]
pub struct App {
    /// The selected card.
    pub value: CardNumber,
    /// The capacity: the largest card number that can be selected.
    pub max_value: Positive,
    /// The binder that the cards are in.
    pub binder: Binder,
}

/// The card number selected after `wanted` was asked for: `wanted` itself if
/// it lies in `1..=capacity`, and otherwise the number selected before.
pub open spec fn chosen(current: nat, capacity: nat, wanted: nat) -> nat {
    if 1 <= wanted <= capacity {
        wanted
    } else {
        current
    }
}

/// `current` less `by`, and zero where that would be negative.
pub open spec fn stepped_back(current: nat, by: nat) -> nat {
    if current >= by {
        (current - by) as nat
    } else {
        0
    }
}

/// `current` plus `by`, and `u32::MAX` where that would be larger.
pub open spec fn stepped_forward(current: nat, by: nat) -> nat {
    if current + by <= u32::MAX {
        current + by
    } else {
        u32::MAX as nat
    }
}

impl Default for App {
    /// Card 1 of at most 100, in a binder of 20 pages of 3 rows and 3
    /// columns.
    fn default() -> (app: App)
        ensures
            app.value@ == 1,
            app.max_value@ == 100,
            app.binder.rows() == 3,
            app.binder.cols() == 3,
            app.binder.pages() == 20,
            app.binder@.slots_per_page() == 9,
    {
        App {
            value: CardNumber::try_new(1, 100).unwrap(),
            max_value: Positive::new(100).unwrap(),
            binder: Binder::new(3, 3, 20),
        }
    }
}

impl App {
    /// No part of the state holds a zero.
    pub open spec fn well_formed(&self) -> bool {
        self.value.well_formed() && self.max_value.well_formed() && self.binder.well_formed()
    }

    /// The index of the selected card's slot.
    pub open spec fn selected_index(&self) -> nat {
        (self.value@ - 1) as nat
    }

    /// The number of whole pages before the page of the selected card.
    pub open spec fn spec_page_offset(&self) -> nat {
        self.selected_index() / self.binder@.slots_per_page()
    }

    /// The position of the selected card on its page, counted from one in
    /// the order in which the page is filled; a page whose slots outnumber
    /// `u32::MAX` counts as one of `u32::MAX` slots.
    pub open spec fn spec_slot_on_page(&self) -> nat {
        self.selected_index() % (self.binder.total_page_slots() as nat) + 1
    }

    /// Whether the page of the selected card lies on the given table. The
    /// first page lies on the right, the second on the left, and so on in
    /// turn.
    pub open spec fn spec_shows_selected_page(&self, table: CardTable) -> bool {
        match table {
            CardTable::Left => self.spec_page_offset() % 2 == 1,
            CardTable::Right => self.spec_page_offset() % 2 == 0,
        }
    }

    /// The slot index of the cell in the given row and column, both counted
    /// from zero, of the page that holds the selected card.
    pub open spec fn cell_index(&self, row: nat, col: nat) -> nat {
        row * self.binder@.cols + col + self.spec_page_offset() * self.binder@.slots_per_page()
    }

    /// Whether the cell in the given row and column, both counted from zero,
    /// of the given table holds the selected card.
    pub open spec fn spec_cell_selected(&self, table: CardTable, row: u32, col: u32) -> bool {
        self.spec_shows_selected_page(table) && self.cell_index(row as nat, col as nat)
            == self.selected_index()
    }

    /// Selects card `number` if it lies between one and the capacity, and
    /// leaves the selection as it is otherwise.
    pub fn select(&mut self, number: u32)
        ensures
            final(self).value@ == chosen(old(self).value@, old(self).max_value@, number as nat),
            !(1 <= number <= old(self).max_value@) ==> final(self).value == old(self).value,
            final(self).max_value == old(self).max_value,
            final(self).binder == old(self).binder,
    {
        match CardNumber::try_new(number, self.max_value.get()) {
            Some(card) => {
                self.value = card;
            },
            None => {},
        }
    }

    /// Moves the selection back by `by` cards, if the card reached lies
    /// between one and the capacity, and leaves it as it is otherwise.
    pub fn step_back(&mut self, by: u32)
        ensures
            final(self).value@ == chosen(
                old(self).value@,
                old(self).max_value@,
                stepped_back(old(self).value@, by as nat),
            ),
            final(self).max_value == old(self).max_value,
            final(self).binder == old(self).binder,
    {
        let wanted: u32 = self.value.get().saturating_sub(by);
        self.select(wanted);
    }

    /// Moves the selection forward by `by` cards, if the card reached lies
    /// between one and the capacity, and leaves it as it is otherwise. A
    /// number beyond `u32::MAX` counts as `u32::MAX`.
    pub fn step_forward(&mut self, by: u32)
        ensures
            final(self).value@ == chosen(
                old(self).value@,
                old(self).max_value@,
                stepped_forward(old(self).value@, by as nat),
            ),
            final(self).max_value == old(self).max_value,
            final(self).binder == old(self).binder,
    {
        let wanted: u32 = self.value.get().saturating_add(by);
        self.select(wanted);
    }

    /// Selects the first card, which every capacity admits.
    pub fn reset(&mut self)
        ensures
            final(self).value@ == 1,
            final(self).max_value == old(self).max_value,
            final(self).binder == old(self).binder,
    {
        proof {
            use_type_invariant(&self.max_value);
        }
        self.select(1);
    }

    /// The slot of the selected card.
    pub fn slot(&self) -> (slot: BinderSlot)
        ensures
            slot == BinderSlot::from_card_number(&self.binder, self.value),
            slot.index()@ == self.selected_index(),
            slot.page() == self.binder@.page_of(self.selected_index()),
            slot.row() == self.binder@.row_of(self.selected_index()),
            slot.col() == self.binder@.col_of(self.selected_index()),
    {
        BinderSlot::from_card_number(&self.binder, self.value)
    }

    /// The position of the selected card on its page, counted from one.
    pub fn slot_on_page(&self) -> (position: u32)
        ensures
            position == self.spec_slot_on_page(),
            1 <= position <= self.binder.total_page_slots(),
    {
        let per_page: u32 = self.binder.total_page_slots();
        self.value.to_index().get() % per_page + 1
    }

    /// The number of whole pages before the page of the selected card.
    pub fn page_offset(&self) -> (offset: u32)
        ensures
            offset == self.spec_page_offset(),
    {
        let slot = self.slot();
        proof {
            use_type_invariant(&self.binder);
            self.binder@.lemma_place_within_page(self.selected_index());
        }
        (slot.page() - 1) as u32
    }

    /// Whether the page of the selected card lies on the given table.
    #[verifier::when_used_as_spec(spec_shows_selected_page)]
    pub fn shows_selected_page(&self, table: CardTable) -> (shown: bool)
        ensures
            shown == self.spec_shows_selected_page(table),
    {
        let offset: u32 = self.page_offset();
        match table {
            CardTable::Left => offset % 2 == 1,
            CardTable::Right => offset % 2 == 0,
        }
    }

    /// Whether the cell in the given row and column, both counted from zero,
    /// of the given table is the one to highlight: the table shows the page
    /// of the selected card, and the cell is the card's slot.
    #[verifier::when_used_as_spec(spec_cell_selected)]
    pub fn cell_selected(&self, table: CardTable, row: u32, col: u32) -> (selected: bool)
        ensures
            selected == self.spec_cell_selected(table, row, col),
    {
        let rows: u64 = self.binder.rows() as u64;
        let cols: u64 = self.binder.cols() as u64;
        let position: u64 = self.value.to_index().get() as u64;
        proof {
            let per_page: nat = self.binder@.slots_per_page();
            self.binder@.lemma_place_within_page(self.selected_index());
            assert(rows * cols <= 0xffff_ffff * 0xffff_ffff) by (nonlinear_arith)
                requires
                    rows <= 0xffff_ffff,
                    cols <= 0xffff_ffff,
            ;
            assert(row * cols <= 0xffff_ffff * 0xffff_ffff) by (nonlinear_arith)
                requires
                    row <= 0xffff_ffff,
                    cols <= 0xffff_ffff,
            ;
            vstd::arithmetic::div_mod::lemma_fundamental_div_mod(
                self.selected_index() as int,
                per_page as int,
            );
            assert(per_page * self.spec_page_offset() == self.spec_page_offset() * per_page)
                by (nonlinear_arith);
        }
        let within: u64 = position % (rows * cols);
        let cell: u64 = row as u64 * cols + col as u64;
        self.shows_selected_page(table) && cell == within
    }

    /// The page of the selected card lies on exactly one of the two tables.
    pub proof fn lemma_one_table_shows_selected_page(app: App)
        ensures
            app.shows_selected_page(CardTable::Left) != app.shows_selected_page(CardTable::Right),
    {
    }

    /// Among the cells of a table, the one to highlight is the cell in the
    /// row and column of the selected card's slot, on the table that shows
    /// the card's page.
    pub proof fn lemma_selected_cell_is_the_slot(app: App, table: CardTable, row: u32, col: u32)
        requires
            app.well_formed(),
            col < app.binder.cols(),
        ensures
            app.cell_selected(table, row, col) <==> app.shows_selected_page(table) && row + 1
                == BinderSlot::from_card_number(&app.binder, app.value).row() && col + 1
                == BinderSlot::from_card_number(&app.binder, app.value).col(),
    {
        let index: nat = app.selected_index();
        let cols: nat = app.binder@.cols;
        let per_page: nat = app.binder@.slots_per_page();
        let within: nat = index % per_page;
        BinderSlot::lemma_from_card_number(app.binder, app.value);
        app.binder@.lemma_place_within_page(index);
        vstd::arithmetic::div_mod::lemma_fundamental_div_mod(index as int, per_page as int);
        assert(per_page * (index / per_page) == (index / per_page) * per_page)
            by (nonlinear_arith);
        assert(app.cell_index(row as nat, col as nat) == index <==> row * cols + col == within);
        if row * cols + col == within {
            vstd::arithmetic::div_mod::lemma_fundamental_div_mod_converse(
                within as int,
                cols as int,
                row as int,
                col as int,
            );
        }
        if row == within / cols && col == within % cols {
            vstd::arithmetic::div_mod::lemma_fundamental_div_mod(within as int, cols as int);
            assert(cols * (within / cols) == (within / cols) * cols) by (nonlinear_arith);
        }
    }
}

} // verus!
