//! Binder geometry, and the page, row and column at which a slot lies.

use crate::card_number::{CardNumber, SlotIndex};
use crate::positive::{saturating_product, Positive};
use vstd::prelude::*;

verus! {

/// The dimension that was refused because it was zero.
#[derive(Debug, Clone, Copy, PartialEq, Eq, Structural)]
pub enum BinderError {
    /// The number of rows on a page was zero.
    ZeroRows,
    /// The number of columns on a page was zero.
    ZeroCols,
    /// The number of pages was zero.
    ZeroPages,
}

/// A binder: pages that each hold a grid of card slots. No dimension is
/// ever zero.
#[derive(Debug, PartialEq, Eq, Clone, Copy, Structural)]
pub struct Binder {
    /// The number of rows on each page.
    rows: Positive,
    /// The number of columns on each page.
    cols: Positive,
    /// The number of pages in the binder.
    pages: Positive,
}

/// The place of one card slot in a binder: page, row and column, each
/// counted from one, together with the slot index they were derived from.
#[derive(Debug, PartialEq, Eq, Clone, Copy, Structural)]
pub struct BinderSlot {
    /// The page number of the card slot. It is wider than an index: the
    /// last index lies on page `u32::MAX + 1` of a binder with one slot to
    /// the page.
    page: u64,
    /// The row number on the page.
    row: Positive,
    /// The column number on the page.
    col: Positive,
    /// The index of the card slot.
    index: SlotIndex,
}

/// The dimensions of a binder as mathematical numbers.
pub struct Geometry {
    /// Rows on each page.
    pub rows: nat,
    /// Columns on each page.
    pub cols: nat,
    /// Pages in the binder.
    pub pages: nat,
}

/// The place of a slot as mathematical numbers.
pub struct Placement {
    /// Page, counted from one.
    pub page: nat,
    /// Row on the page, counted from one.
    pub row: nat,
    /// Column on the page, counted from one.
    pub col: nat,
    /// Slot index, counted from zero.
    pub index: nat,
}

impl Geometry {
    /// No dimension is zero.
    pub open spec fn well_formed(self) -> bool {
        self.rows >= 1 && self.cols >= 1 && self.pages >= 1
    }

    /// The number of slots on one page.
    ///
    /// The functions that make or change a binder state this product over
    /// their arguments too, so that a caller with given numbers has it
    /// without multiplying.
    pub open spec fn slots_per_page(self) -> nat {
        self.rows * self.cols
    }

    /// The page, counted from one, that holds slot `index`. Pages are filled
    /// one after the other.
    pub open spec fn page_of(self, index: nat) -> nat {
        index / self.slots_per_page() + 1
    }

    /// The row, counted from one, of slot `index` on its page. A page is
    /// filled row by row.
    pub open spec fn row_of(self, index: nat) -> nat {
        (index % self.slots_per_page()) / self.cols + 1
    }

    /// The column, counted from one, of slot `index` on its page.
    pub open spec fn col_of(self, index: nat) -> nat {
        (index % self.slots_per_page()) % self.cols + 1
    }

    /// The place of slot `index`.
    pub open spec fn place(self, index: nat) -> Placement {
        Placement {
            page: self.page_of(index),
            row: self.row_of(index),
            col: self.col_of(index),
            index,
        }
    }

    /// On pages with at least one row and one column, every slot lies in
    /// one of the rows and in one of the columns, and its page number is at
    /// most its index plus one.
    pub proof fn lemma_place_within_page(self, index: nat)
        requires
            self.rows >= 1,
            self.cols >= 1,
        ensures
            self.slots_per_page() >= 1,
            1 <= self.page_of(index) <= index + 1,
            1 <= self.row_of(index) <= self.rows,
            1 <= self.col_of(index) <= self.cols,
    {
        let per_page: nat = self.slots_per_page();
        assert(per_page >= 1) by (nonlinear_arith)
            requires
                per_page == self.rows * self.cols,
                self.rows >= 1,
                self.cols >= 1,
        ;
        let within: nat = index % per_page;
        assert(within / self.cols < self.rows) by (nonlinear_arith)
            requires
                within < self.rows * self.cols,
                self.cols >= 1,
        ;
        assert(index / per_page <= index) by (nonlinear_arith)
            requires
                per_page >= 1,
        ;
    }

    /// The place of a slot gives its index back: the slots of the pages
    /// before it, those of the rows above it and those to its left in its
    /// row add up to the index.
    pub proof fn lemma_place_gives_index(self, index: nat)
        requires
            self.rows >= 1,
            self.cols >= 1,
        ensures
            index == (self.page_of(index) - 1) * self.slots_per_page() + (self.row_of(index) - 1)
                * self.cols + (self.col_of(index) - 1),
    {
        self.lemma_place_within_page(index);
        let per_page: nat = self.slots_per_page();
        let within: nat = index % per_page;
        vstd::arithmetic::div_mod::lemma_fundamental_div_mod(index as int, per_page as int);
        vstd::arithmetic::div_mod::lemma_fundamental_div_mod(within as int, self.cols as int);
        assert((index / per_page) * per_page == per_page * (index / per_page))
            by (nonlinear_arith);
        assert((within / self.cols) * self.cols == self.cols * (within / self.cols))
            by (nonlinear_arith);
    }

    /// The column of a slot is also its index modulo the number of columns,
    /// plus one: whole pages and whole rows before it do not shift it.
    pub proof fn lemma_col_of_ignores_pages(self, index: nat)
        requires
            self.rows >= 1,
            self.cols >= 1,
        ensures
            self.col_of(index) == index % self.cols + 1,
    {
        self.lemma_place_within_page(index);
        vstd::arithmetic::div_mod::lemma_mod_mod(
            index as int,
            self.cols as int,
            self.rows as int,
        );
        assert(self.cols * self.rows == self.rows * self.cols) by (nonlinear_arith);
    }
}

impl BinderError {
    /// The words that describe the error.
    pub open spec fn spec_message(self) -> Seq<char> {
        match self {
            BinderError::ZeroRows => "Rows should be non-zero"@,
            BinderError::ZeroCols => "Columns should be non-zero"@,
            BinderError::ZeroPages => "Pages should be non-zero"@,
        }
    }

    /// Returns the words that describe the error.
    pub fn message(&self) -> (text: String)
        ensures
            text@ == self.spec_message(),
    {
        match self {
            BinderError::ZeroRows => "Rows should be non-zero".to_owned(),
            BinderError::ZeroCols => "Columns should be non-zero".to_owned(),
            BinderError::ZeroPages => "Pages should be non-zero".to_owned(),
        }
    }
}

impl View for Binder {
    type V = Geometry;

    /// The dimensions of the binder.
    open spec fn view(&self) -> Geometry {
        Geometry {
            rows: self.rows() as nat,
            cols: self.cols() as nat,
            pages: self.pages() as nat,
        }
    }
}

impl Binder {
    /// The invariant of the type: no dimension is zero.
    #[verifier::type_invariant]
    pub open spec fn well_formed(self) -> bool {
        self@.well_formed()
    }

    /// The number of rows on a page.
    pub closed spec fn spec_rows(&self) -> u32 {
        self.rows.get()
    }

    /// The number of columns on a page.
    pub closed spec fn spec_cols(&self) -> u32 {
        self.cols.get()
    }

    /// The number of pages in the binder.
    pub closed spec fn spec_pages(&self) -> u32 {
        self.pages.get()
    }

    /// The number of slots on a page, clamped to the largest `u32`.
    pub open spec fn spec_total_page_slots(&self) -> u32 {
        saturating_product(self@.rows, self@.cols) as u32
    }

    /// Creates a binder with the given numbers of rows and columns on each
    /// page, and of pages. None of them may be zero;
    /// [`Binder::try_new`] reports a zero instead.
    pub fn new(rows: u32, cols: u32, pages: u32) -> (binder: Binder)
        requires
            rows >= 1,
            cols >= 1,
            pages >= 1,
        ensures
            binder.rows() == rows,
            binder.cols() == cols,
            binder.pages() == pages,
            binder@.slots_per_page() == rows * cols,
    {
        Binder {
            rows: Positive::new(rows).unwrap(),
            cols: Positive::new(cols).unwrap(),
            pages: Positive::new(pages).unwrap(),
        }
    }

    /// Creates a binder, or reports the first dimension that is zero, taking
    /// them in the order rows, columns, pages.
    pub fn try_new(rows: u32, cols: u32, pages: u32) -> (made: Result<Binder, BinderError>)
        ensures
            rows == 0 ==> made == Err::<Binder, BinderError>(BinderError::ZeroRows),
            rows != 0 && cols == 0 ==> made == Err::<Binder, BinderError>(BinderError::ZeroCols),
            rows != 0 && cols != 0 && pages == 0 ==> made == Err::<Binder, BinderError>(
                BinderError::ZeroPages,
            ),
            rows != 0 && cols != 0 && pages != 0 ==> made is Ok,
            made matches Ok(binder) ==> binder.rows() == rows && binder.cols() == cols
                && binder.pages() == pages && binder@.slots_per_page() == rows * cols,
    {
        if rows == 0 {
            Err(BinderError::ZeroRows)
        } else if cols == 0 {
            Err(BinderError::ZeroCols)
        } else if pages == 0 {
            Err(BinderError::ZeroPages)
        } else {
            Ok(Binder::new(rows, cols, pages))
        }
    }

    /// Get the number of pages in the binder.
    #[verifier::when_used_as_spec(spec_pages)]
    pub fn pages(&self) -> (pages: u32)
        ensures
            pages == self.spec_pages(),
            pages == self@.pages,
            pages >= 1,
    {
        self.pages.get()
    }

    /// Get the number of rows on a page.
    #[verifier::when_used_as_spec(spec_rows)]
    pub fn rows(&self) -> (rows: u32)
        ensures
            rows == self.spec_rows(),
            rows == self@.rows,
            rows >= 1,
    {
        self.rows.get()
    }

    /// Get the number of columns on a page.
    #[verifier::when_used_as_spec(spec_cols)]
    pub fn cols(&self) -> (cols: u32)
        ensures
            cols == self.spec_cols(),
            cols == self@.cols,
            cols >= 1,
    {
        self.cols.get()
    }

    /// Update the number of pages in the binder. Zero is refused, and the
    /// binder is then left as it was.
    pub fn set_pages(&mut self, pages: u32) -> (outcome: Result<(), BinderError>)
        ensures
            pages == 0 ==> outcome == Err::<(), BinderError>(BinderError::ZeroPages)
                && *final(self) == *old(self),
            pages != 0 ==> outcome is Ok && final(self).pages() == pages && final(self).rows()
                == old(self).rows() && final(self).cols() == old(self).cols(),
            pages != 0 ==> final(self)@.slots_per_page() == old(self)@.slots_per_page(),
    {
        match Positive::new(pages) {
            Some(pages) => {
                proof {
                    use_type_invariant(&*self);
                }
                self.pages = pages;
                Ok(())
            },
            None => Err(BinderError::ZeroPages),
        }
    }

    /// Update the number of rows on a page. Zero is refused, and the binder
    /// is then left as it was.
    pub fn set_rows(&mut self, rows: u32) -> (outcome: Result<(), BinderError>)
        ensures
            rows == 0 ==> outcome == Err::<(), BinderError>(BinderError::ZeroRows)
                && *final(self) == *old(self),
            rows != 0 ==> outcome is Ok && final(self).rows() == rows && final(self).cols()
                == old(self).cols() && final(self).pages() == old(self).pages(),
            rows != 0 ==> final(self)@.slots_per_page() == rows * old(self).cols(),
    {
        match Positive::new(rows) {
            Some(rows) => {
                proof {
                    use_type_invariant(&*self);
                }
                self.rows = rows;
                Ok(())
            },
            None => Err(BinderError::ZeroRows),
        }
    }

    /// Update the number of columns on a page. Zero is refused, and the
    /// binder is then left as it was.
    pub fn set_cols(&mut self, cols: u32) -> (outcome: Result<(), BinderError>)
        ensures
            cols == 0 ==> outcome == Err::<(), BinderError>(BinderError::ZeroCols)
                && *final(self) == *old(self),
            cols != 0 ==> outcome is Ok && final(self).cols() == cols && final(self).rows()
                == old(self).rows() && final(self).pages() == old(self).pages(),
            cols != 0 ==> final(self)@.slots_per_page() == old(self).rows() * cols,
    {
        match Positive::new(cols) {
            Some(cols) => {
                proof {
                    use_type_invariant(&*self);
                }
                self.cols = cols;
                Ok(())
            },
            None => Err(BinderError::ZeroCols),
        }
    }

    /// Get the number of slots on a page: rows times columns, or `u32::MAX`
    /// where the product is larger than that.
    #[verifier::when_used_as_spec(spec_total_page_slots)]
    pub fn total_page_slots(&self) -> (slots: u32)
        ensures
            slots == self.spec_total_page_slots(),
            slots == saturating_product(self@.rows, self@.cols),
            slots >= 1,
    {
        proof {
            use_type_invariant(self);
            Positive::lemma_saturating_mul(self.rows, self.cols);
        }
        self.rows.saturating_mul(self.cols).get()
    }

    /// The number of slots on a page is the product of rows and columns
    /// where that fits in a `u32`, and `u32::MAX` where it does not.
    pub proof fn lemma_total_page_slots(binder: Binder)
        requires
            binder.well_formed(),
        ensures
            binder.rows() * binder.cols() <= u32::MAX ==> binder.total_page_slots()
                == binder.rows() * binder.cols(),
            binder.rows() * binder.cols() > u32::MAX ==> binder.total_page_slots() == u32::MAX,
            binder.total_page_slots() >= 1,
    {
        binder@.lemma_place_within_page(0);
    }

    /// Two binders with the same dimensions are the same binder.
    pub proof fn lemma_equal_by_dimensions(a: Binder, b: Binder)
        requires
            a@ == b@,
        ensures
            a == b,
    {
        Positive::lemma_equal_by_number(a.rows, b.rows);
        Positive::lemma_equal_by_number(a.cols, b.cols);
        Positive::lemma_equal_by_number(a.pages, b.pages);
    }
}

impl View for BinderSlot {
    type V = Placement;

    /// The place of the slot.
    open spec fn view(&self) -> Placement {
        Placement {
            page: self.page() as nat,
            row: self.row() as nat,
            col: self.col() as nat,
            index: self.index()@,
        }
    }
}

impl BinderSlot {
    /// The invariant of the type: page, row and column are at least one.
    #[verifier::type_invariant]
    pub open spec fn well_formed(self) -> bool {
        self.page() >= 1 && self.row() >= 1 && self.col() >= 1
    }

    /// The page number of the card slot.
    pub closed spec fn spec_page(&self) -> u64 {
        self.page
    }

    /// The row number on the page.
    pub closed spec fn spec_row(&self) -> u32 {
        self.row.get()
    }

    /// The column number on the page.
    pub closed spec fn spec_col(&self) -> u32 {
        self.col.get()
    }

    /// The index of the card slot.
    pub closed spec fn spec_index(&self) -> SlotIndex {
        self.index
    }

    /// The slot at `index` of `binder`.
    pub closed spec fn spec_from_index(binder: &Binder, index: SlotIndex) -> BinderSlot {
        BinderSlot {
            page: binder@.page_of(index@) as u64,
            row: Positive::new(binder@.row_of(index@) as u32)->0,
            col: Positive::new(binder@.col_of(index@) as u32)->0,
            index,
        }
    }

    /// The slot of the card with the given number.
    pub open spec fn spec_from_card_number(binder: &Binder, card_number: CardNumber) -> BinderSlot {
        BinderSlot::from_index(binder, card_number.to_index())
    }

    /// For a given index, return the corresponding card slot.
    ///
    /// Slots are counted page by page and, on a page, row by row. The index
    /// may lie beyond the last page of the binder: the page number is then
    /// larger than the number of pages.
    #[verifier::when_used_as_spec(spec_from_index)]
    pub fn from_index(binder: &Binder, index: SlotIndex) -> (slot: BinderSlot)
        ensures
            slot == BinderSlot::spec_from_index(binder, index),
            slot.index() == index,
            slot.page() == binder@.page_of(index@),
            slot.row() == binder@.row_of(index@),
            slot.col() == binder@.col_of(index@),
    {
        let rows: u64 = binder.rows() as u64;
        let cols: u64 = binder.cols() as u64;
        let position: u64 = index.get() as u64;
        proof {
            binder@.lemma_place_within_page(index@);
            assert(rows * cols <= 0xffff_ffff * 0xffff_ffff) by (nonlinear_arith)
                requires
                    rows <= 0xffff_ffff,
                    cols <= 0xffff_ffff,
            ;
        }
        let per_page: u64 = rows * cols;
        let within: u64 = position % per_page;
        let page: u64 = position / per_page + 1;
        let row: u32 = (within / cols + 1) as u32;
        let col: u32 = (within % cols + 1) as u32;
        BinderSlot {
            page,
            row: Positive::new(row).unwrap(),
            col: Positive::new(col).unwrap(),
            index,
        }
    }

    /// For a given card number, return the corresponding card slot.
    #[verifier::when_used_as_spec(spec_from_card_number)]
    pub fn from_card_number(binder: &Binder, card_number: CardNumber) -> (slot: BinderSlot)
        ensures
            slot == BinderSlot::spec_from_card_number(binder, card_number),
            slot.index() == card_number.to_index(),
            slot.index()@ == card_number@ - 1,
            slot.page() == binder@.page_of((card_number@ - 1) as nat),
            slot.row() == binder@.row_of((card_number@ - 1) as nat),
            slot.col() == binder@.col_of((card_number@ - 1) as nat),
    {
        Self::from_index(binder, card_number.to_index())
    }

    /// Get the page number of the card slot.
    #[verifier::when_used_as_spec(spec_page)]
    pub fn page(&self) -> (page: u64)
        ensures
            page == self.spec_page(),
            page == self@.page,
            page >= 1,
    {
        proof {
            use_type_invariant(self);
        }
        self.page
    }

    /// Get the row number of the card slot.
    #[verifier::when_used_as_spec(spec_row)]
    pub fn row(&self) -> (row: u32)
        ensures
            row == self.spec_row(),
            row == self@.row,
            row >= 1,
    {
        self.row.get()
    }

    /// Get the column number of the card slot.
    #[verifier::when_used_as_spec(spec_col)]
    pub fn col(&self) -> (col: u32)
        ensures
            col == self.spec_col(),
            col == self@.col,
            col >= 1,
    {
        self.col.get()
    }

    /// Convert a binder slot to an index.
    #[verifier::when_used_as_spec(spec_index)]
    pub fn index(&self) -> (index: SlotIndex)
        ensures
            index == self.spec_index(),
            index@ == self@.index,
    {
        self.index
    }

    /// The slot made for an index keeps the index and lies at the page, row
    /// and column of the placement formulas.
    pub proof fn lemma_from_index(binder: Binder, index: SlotIndex)
        requires
            binder.well_formed(),
        ensures
            BinderSlot::from_index(&binder, index)@ == binder@.place(index@),
            BinderSlot::from_index(&binder, index).index() == index,
            BinderSlot::from_index(&binder, index).well_formed(),
    {
        binder@.lemma_place_within_page(index@);
        Positive::lemma_new(binder@.row_of(index@) as u32);
        Positive::lemma_new(binder@.col_of(index@) as u32);
    }

    /// Whatever the binder and the index, the slot lies in one of the
    /// binder's rows and in one of its columns.
    pub proof fn lemma_slot_within_page(binder: Binder, index: SlotIndex)
        requires
            binder.well_formed(),
        ensures
            1 <= BinderSlot::from_index(&binder, index).col() <= binder.cols(),
            1 <= BinderSlot::from_index(&binder, index).row() <= binder.rows(),
    {
        Self::lemma_from_index(binder, index);
        binder@.lemma_place_within_page(index@);
    }

    /// The slot of a card number is the slot of its index, which is the
    /// card number less one.
    pub proof fn lemma_from_card_number(binder: Binder, card_number: CardNumber)
        requires
            binder.well_formed(),
            card_number.well_formed(),
        ensures
            BinderSlot::from_card_number(&binder, card_number) == BinderSlot::from_index(
                &binder,
                card_number.to_index(),
            ),
            BinderSlot::from_card_number(&binder, card_number)@ == binder@.place(
                (card_number@ - 1) as nat,
            ),
    {
        CardNumber::lemma_to_index(card_number);
        Self::lemma_from_index(binder, card_number.to_index());
    }

    /// Two slots at the same place are the same slot.
    pub proof fn lemma_equal_by_place(a: BinderSlot, b: BinderSlot)
        requires
            a@ == b@,
        ensures
            a == b,
    {
        Positive::lemma_equal_by_number(a.row, b.row);
        Positive::lemma_equal_by_number(a.col, b.col);
        SlotIndex::lemma_equal_by_index(a.index, b.index);
    }
}

} // verus!
