//! Card numbers, counted from one, and slot indices, counted from zero.
//!
//! Both name the same position in a binder: the slot index of a card is its
//! card number less one.

use crate::positive::Positive;
use vstd::prelude::*;

verus! {

/// A user-facing card number: at least 1, and at most the capacity it was
/// checked against when it was made.
#[derive(Debug, Clone, Copy, PartialEq, Eq, PartialOrd, Ord, Structural)]
pub struct CardNumber(Positive);

/// An internal slot index, counted from zero at the first slot of the first
/// page. Any `u32` is a slot index; whether it lies inside a given binder is
/// for the caller to decide.
#[derive(Debug, Clone, Copy, PartialEq, Eq, PartialOrd, Ord, Structural)]
pub struct SlotIndex(u32);

impl View for CardNumber {
    type V = nat;

    /// The card number as a natural number.
    open spec fn view(&self) -> nat {
        self.get() as nat
    }
}

impl View for SlotIndex {
    type V = nat;

    /// The slot index as a natural number.
    open spec fn view(&self) -> nat {
        self.get() as nat
    }
}

impl CardNumber {
    /// The invariant of the type: the number is at least one.
    #[verifier::type_invariant]
    pub open spec fn well_formed(self) -> bool {
        self.get() >= 1
    }

    /// The number of the card.
    pub closed spec fn spec_get(self) -> u32 {
        self.0.get()
    }

    /// The card number `n` if it lies in `1..=max`, and nothing otherwise.
    pub closed spec fn spec_try_new(n: u32, max: u32) -> Option<CardNumber> {
        match Positive::new(n) {
            Some(p) => if n <= max {
                Some(CardNumber(p))
            } else {
                None
            },
            None => None,
        }
    }

    /// The slot index of the card: its number less one.
    pub closed spec fn spec_to_index(self) -> SlotIndex {
        SlotIndex((self.0.get() - 1) as u32)
    }

    /// Makes the card number `n` for a binder that holds `max` cards.
    ///
    /// Succeeds exactly when `1 <= n <= max`; in particular a capacity of
    /// zero admits no card number at all.
    #[verifier::when_used_as_spec(spec_try_new)]
    pub fn try_new(n: u32, max: u32) -> (made: Option<CardNumber>)
        ensures
            made == CardNumber::spec_try_new(n, max),
            made is Some <==> 1 <= n <= max,
            made matches Some(card) ==> card@ == n,
    {
        match Positive::new(n) {
            Some(p) => if n <= max {
                Some(CardNumber(p))
            } else {
                None
            },
            None => None,
        }
    }

    /// Returns the card number, counted from one.
    #[verifier::when_used_as_spec(spec_get)]
    pub fn get(self) -> (n: u32)
        ensures
            n == self.spec_get(),
            n == self@,
            n >= 1,
    {
        self.0.get()
    }

    /// Converts to the slot index, counted from zero.
    #[verifier::when_used_as_spec(spec_to_index)]
    pub fn to_index(self) -> (index: SlotIndex)
        ensures
            index == self.spec_to_index(),
            index@ == self@ - 1,
    {
        SlotIndex(self.0.get() - 1)
    }

    /// Every number from one up to the capacity is accepted, and the card
    /// number made from it reads back as that number.
    pub proof fn lemma_try_new_accepts(n: u32, capacity: u32)
        requires
            1 <= n <= capacity,
        ensures
            CardNumber::try_new(n, capacity) matches Some(card) && card.get() == n
                && card.well_formed(),
    {
        Positive::lemma_new(n);
    }

    /// Zero and every number above the capacity are refused.
    pub proof fn lemma_try_new_rejects(n: u32, capacity: u32)
        requires
            n == 0 || n > capacity,
        ensures
            CardNumber::try_new(n, capacity) is None,
    {
        Positive::lemma_new(n);
    }

    /// With a capacity of zero every number is refused.
    pub proof fn lemma_try_new_zero_capacity(n: u32)
        ensures
            CardNumber::try_new(n, 0) is None,
    {
        Positive::lemma_new(n);
    }

    /// The slot index of a card number is the number less one.
    pub proof fn lemma_to_index(card: CardNumber)
        requires
            card.well_formed(),
        ensures
            card.to_index()@ == card@ - 1,
            card.to_index()@ < u32::MAX,
    {
    }

    /// Converting a card number to its slot index and back gives the card
    /// number again.
    pub proof fn lemma_card_number_round_trip(card: CardNumber)
        requires
            card.well_formed(),
        ensures
            card.to_index().to_card_number() == card,
    {
        let n: u32 = card.0.get();
        Positive::lemma_new(n);
        Positive::lemma_equal_by_number(Positive::new(n)->0, card.0);
    }

    /// Two card numbers with the same number are the same card number.
    pub proof fn lemma_equal_by_number(a: CardNumber, b: CardNumber)
        requires
            a.get() == b.get(),
        ensures
            a == b,
    {
        Positive::lemma_equal_by_number(a.0, b.0);
    }
}

impl SlotIndex {
    /// The index held.
    pub closed spec fn spec_get(self) -> u32 {
        self.0
    }

    /// The slot index `n`.
    pub closed spec fn spec_new(n: u32) -> SlotIndex {
        SlotIndex(n)
    }

    /// The card number of the slot: its index plus one. Below `u32::MAX`
    /// only; the last index has no card number.
    pub closed spec fn spec_to_card_number(self) -> CardNumber {
        CardNumber(Positive::new((self.0 + 1) as u32)->0)
    }

    /// The card number of the slot, or nothing for the last index.
    pub closed spec fn spec_checked_to_card_number(self) -> Option<CardNumber> {
        if self.0 < u32::MAX {
            Some(self.to_card_number())
        } else {
            None
        }
    }

    /// Makes a slot index from a value counted from zero.
    #[verifier::when_used_as_spec(spec_new)]
    pub fn new(n: u32) -> (index: SlotIndex)
        ensures
            index == SlotIndex::spec_new(n),
            index@ == n,
    {
        SlotIndex(n)
    }

    /// Returns the index, counted from zero.
    #[verifier::when_used_as_spec(spec_get)]
    pub fn get(self) -> (n: u32)
        ensures
            n == self.spec_get(),
            n == self@,
    {
        self.0
    }

    /// Converts to the card number, counted from one, that is shown for this
    /// slot. No capacity is checked.
    ///
    /// The index must be below `u32::MAX`, since its card number would not
    /// fit otherwise; [`SlotIndex::checked_to_card_number`] tests that first.
    #[verifier::when_used_as_spec(spec_to_card_number)]
    pub fn to_card_number(self) -> (card: CardNumber)
        requires
            self@ < u32::MAX,
        ensures
            card == self.spec_to_card_number(),
            card@ == self@ + 1,
    {
        CardNumber(Positive::new(self.0 + 1).unwrap())
    }

    /// Converts to the card number shown for this slot, or to nothing when
    /// the index is `u32::MAX` and has no card number.
    #[verifier::when_used_as_spec(spec_checked_to_card_number)]
    pub fn checked_to_card_number(self) -> (made: Option<CardNumber>)
        ensures
            made == self.spec_checked_to_card_number(),
            made is Some <==> self@ < u32::MAX,
            made matches Some(card) ==> card@ == self@ + 1,
    {
        if self.0 < u32::MAX {
            Some(self.to_card_number())
        } else {
            None
        }
    }

    /// A slot index made from a number holds that number.
    pub proof fn lemma_new(n: u32)
        ensures
            SlotIndex::new(n).get() == n,
    {
    }

    /// The card number of a slot below the last index is the index plus one.
    pub proof fn lemma_to_card_number(index: SlotIndex)
        requires
            index@ < u32::MAX,
        ensures
            index.to_card_number()@ == index@ + 1,
            index.to_card_number().well_formed(),
            index.checked_to_card_number() == Some(index.to_card_number()),
    {
        Positive::lemma_new((index.0 + 1) as u32);
    }

    /// The last index has no card number.
    pub proof fn lemma_last_index_has_no_card_number(index: SlotIndex)
        requires
            index@ == u32::MAX,
        ensures
            index.checked_to_card_number() is None,
    {
    }

    /// Converting a slot index below the last one to its card number and
    /// back gives the slot index again.
    pub proof fn lemma_slot_index_round_trip(index: SlotIndex)
        requires
            index@ < u32::MAX,
        ensures
            index.to_card_number().to_index() == index,
    {
        Positive::lemma_new((index.0 + 1) as u32);
    }

    /// Two slot indices with the same index are the same slot index.
    pub proof fn lemma_equal_by_index(a: SlotIndex, b: SlotIndex)
        requires
            a.get() == b.get(),
        ensures
            a == b,
    {
    }
}

} // verus!
