use tcg_bound::card_number::{CardNumber, SlotIndex};

#[test]
fn test_card_number() {
    assert_eq!(CardNumber::try_new(1, 10).unwrap().get(), 1);
    assert_eq!(CardNumber::try_new(10, 10).unwrap().get(), 10);
    assert_eq!(CardNumber::try_new(11, 10), None);
    assert_eq!(CardNumber::try_new(0, 10), None);
}

#[test]
fn test_slot_index() {
    assert_eq!(SlotIndex::new(0).to_card_number().get(), 1);
    assert_eq!(SlotIndex::new(9).to_card_number().get(), 10);
}

#[test]
fn test_zero_based_conversion() {
    let max = 10;
    for n in 1..=max {
        let cn = CardNumber::try_new(n, max).unwrap();
        assert_eq!(cn.to_index().get(), n - 1);
    }
}

#[test]
fn test_round_trip() {
    let max = 10;
    for n in 1..=max {
        let cn = CardNumber::try_new(n, max).unwrap();
        let idx = cn.to_index();
        assert_eq!(idx.to_card_number().get(), n);
    }
}

#[test]
fn try_new_keeps_every_number_up_to_the_capacity() {
    for capacity in [1u32, 2, 10, 1000, u32::MAX] {
        for n in [1u32, 2, 7, 10, 999, 1000, u32::MAX] {
            if n <= capacity {
                assert_eq!(CardNumber::try_new(n, capacity).unwrap().get(), n);
            }
        }
    }
}

#[test]
fn try_new_refuses_zero_and_numbers_above_the_capacity() {
    for capacity in [1u32, 2, 10, 1000, u32::MAX] {
        assert_eq!(CardNumber::try_new(0, capacity), None);
        if capacity < u32::MAX {
            assert_eq!(CardNumber::try_new(capacity + 1, capacity), None);
            assert_eq!(CardNumber::try_new(u32::MAX, capacity), None);
        }
    }
}

#[test]
fn try_new_refuses_everything_for_capacity_zero() {
    for n in [0u32, 1, 2, 100, u32::MAX] {
        assert_eq!(CardNumber::try_new(n, 0), None);
    }
}

#[test]
fn try_new_accepts_the_largest_number() {
    let card = CardNumber::try_new(u32::MAX, u32::MAX).unwrap();
    assert_eq!(card.get(), u32::MAX);
    assert_eq!(card.to_index().get(), u32::MAX - 1);
}

#[test]
fn card_number_round_trip_gives_the_same_card_number() {
    for n in [1u32, 2, 10, 65536, u32::MAX] {
        let card = CardNumber::try_new(n, u32::MAX).unwrap();
        assert_eq!(card.to_index().to_card_number(), card);
    }
}

#[test]
fn slot_index_round_trip_gives_the_same_slot_index() {
    for n in [0u32, 1, 9, 65535, u32::MAX - 1] {
        let index = SlotIndex::new(n);
        assert_eq!(index.to_card_number().to_index(), index);
        assert_eq!(index.to_card_number().to_index().get(), n);
    }
}

#[test]
fn slot_index_is_one_less_than_card_number() {
    let card = CardNumber::try_new(42, 100).unwrap();
    assert_eq!(card.to_index().get(), 41);
    assert_eq!(SlotIndex::new(41).to_card_number().get(), 42);
}

#[test]
fn slot_index_holds_any_value() {
    assert_eq!(SlotIndex::new(0).get(), 0);
    assert_eq!(SlotIndex::new(12345).get(), 12345);
    assert_eq!(SlotIndex::new(u32::MAX).get(), u32::MAX);
}

#[test]
fn checked_to_card_number_stops_at_the_last_index() {
    assert_eq!(SlotIndex::new(u32::MAX).checked_to_card_number(), None);
    let card = SlotIndex::new(u32::MAX - 1).checked_to_card_number().unwrap();
    assert_eq!(card.get(), u32::MAX);
    assert_eq!(SlotIndex::new(0).checked_to_card_number().unwrap().get(), 1);
    assert_eq!(
        SlotIndex::new(9).checked_to_card_number(),
        Some(SlotIndex::new(9).to_card_number())
    );
}

#[test]
fn card_numbers_and_slot_indices_compare_by_number() {
    let low = CardNumber::try_new(3, 10).unwrap();
    let high = CardNumber::try_new(7, 10).unwrap();
    assert!(low < high);
    assert!(low == CardNumber::try_new(3, 50).unwrap());
    assert!(SlotIndex::new(2) < SlotIndex::new(6));
    assert_eq!(SlotIndex::new(6), high.to_index());
}
