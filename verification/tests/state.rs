use tcg_bound::binder::{Binder, BinderSlot};
use tcg_bound::card_number::CardNumber;
use tcg_bound::positive::Positive;
use tcg_bound::state::{App, CardTable};

fn app(value: u32, max_value: u32, rows: u32, cols: u32, pages: u32) -> App {
    App {
        value: CardNumber::try_new(value, u32::MAX).unwrap(),
        max_value: Positive::new(max_value).unwrap(),
        binder: Binder::new(rows, cols, pages),
    }
}

#[test]
fn default_state_is_card_one_of_a_hundred() {
    let state = App::default();
    assert_eq!(state.value.get(), 1);
    assert_eq!(state.max_value.get(), 100);
    assert_eq!(state.binder, Binder::new(3, 3, 20));
    assert_eq!(state, app(1, 100, 3, 3, 20));
}

#[test]
fn select_takes_numbers_up_to_the_capacity() {
    let mut state = App::default();
    state.select(42);
    assert_eq!(state.value.get(), 42);
    state.select(100);
    assert_eq!(state.value.get(), 100);
    state.select(101);
    assert_eq!(state.value.get(), 100);
    state.select(0);
    assert_eq!(state.value.get(), 100);
    state.select(1);
    assert_eq!(state, App::default());
}

#[test]
fn step_back_stops_at_the_first_card() {
    let mut state = app(25, 100, 3, 3, 20);
    state.step_back(10);
    assert_eq!(state.value.get(), 15);
    state.step_back(10);
    assert_eq!(state.value.get(), 5);
    state.step_back(10);
    assert_eq!(state.value.get(), 5);
    state.step_back(1);
    assert_eq!(state.value.get(), 4);
    state.step_back(4);
    assert_eq!(state.value.get(), 4);
    state.step_back(3);
    assert_eq!(state.value.get(), 1);
    state.step_back(1);
    assert_eq!(state.value.get(), 1);
    state.step_back(u32::MAX);
    assert_eq!(state.value.get(), 1);
}

#[test]
fn step_forward_stops_at_the_capacity() {
    let mut state = app(85, 100, 3, 3, 20);
    state.step_forward(10);
    assert_eq!(state.value.get(), 95);
    state.step_forward(10);
    assert_eq!(state.value.get(), 95);
    state.step_forward(1);
    assert_eq!(state.value.get(), 96);
    state.step_forward(4);
    assert_eq!(state.value.get(), 100);
    state.step_forward(1);
    assert_eq!(state.value.get(), 100);
    state.step_forward(u32::MAX);
    assert_eq!(state.value.get(), 100);
}

#[test]
fn step_forward_saturates_at_the_largest_number() {
    let mut state = app(u32::MAX - 5, u32::MAX, 3, 3, 20);
    state.step_forward(10);
    assert_eq!(state.value.get(), u32::MAX);
    state.step_forward(10);
    assert_eq!(state.value.get(), u32::MAX);
}

#[test]
fn steps_leave_a_selection_above_the_capacity_until_it_comes_back_in() {
    let mut state = app(50, 20, 3, 3, 20);
    state.step_forward(1);
    assert_eq!(state.value.get(), 50);
    state.step_back(10);
    assert_eq!(state.value.get(), 50);
    state.step_back(30);
    assert_eq!(state.value.get(), 20);
}

#[test]
fn reset_selects_the_first_card() {
    let mut state = app(77, 100, 4, 5, 6);
    state.reset();
    assert_eq!(state, app(1, 100, 4, 5, 6));
    let mut state = app(77, 1, 4, 5, 6);
    state.reset();
    assert_eq!(state.value.get(), 1);
}

#[test]
fn changes_to_the_selection_leave_capacity_and_binder() {
    let mut state = app(7, 30, 4, 5, 6);
    state.select(9);
    state.step_back(1);
    state.step_forward(3);
    state.reset();
    assert_eq!(state.max_value.get(), 30);
    assert_eq!(state.binder, Binder::new(4, 5, 6));
}

#[test]
fn slot_of_the_selected_card() {
    let state = app(11, 100, 3, 3, 20);
    let slot = state.slot();
    assert_eq!((slot.page(), slot.row(), slot.col()), (2, 1, 2));
    assert_eq!(slot.index().get(), 10);
    assert_eq!(slot, BinderSlot::from_card_number(&state.binder, state.value));
}

#[test]
fn slot_on_page_counts_from_one() {
    assert_eq!(app(1, 100, 3, 3, 20).slot_on_page(), 1);
    assert_eq!(app(9, 100, 3, 3, 20).slot_on_page(), 9);
    assert_eq!(app(10, 100, 3, 3, 20).slot_on_page(), 1);
    assert_eq!(app(11, 100, 3, 3, 20).slot_on_page(), 2);
    assert_eq!(app(47, 100, 4, 5, 20).slot_on_page(), 7);
    assert_eq!(app(u32::MAX, u32::MAX, 70000, 70000, 1).slot_on_page(), u32::MAX);
}

#[test]
fn page_offset_counts_whole_pages() {
    assert_eq!(app(1, 100, 3, 3, 20).page_offset(), 0);
    assert_eq!(app(9, 100, 3, 3, 20).page_offset(), 0);
    assert_eq!(app(10, 100, 3, 3, 20).page_offset(), 1);
    assert_eq!(app(100, 100, 3, 3, 20).page_offset(), 11);
    assert_eq!(app(u32::MAX, u32::MAX, 1, 1, 1).page_offset(), u32::MAX - 1);
}

#[test]
fn pages_alternate_between_the_tables() {
    let first = app(1, 100, 3, 3, 20);
    assert!(first.shows_selected_page(CardTable::Right));
    assert!(!first.shows_selected_page(CardTable::Left));
    let second = app(10, 100, 3, 3, 20);
    assert!(second.shows_selected_page(CardTable::Left));
    assert!(!second.shows_selected_page(CardTable::Right));
    let third = app(19, 100, 3, 3, 20);
    assert!(third.shows_selected_page(CardTable::Right));
    assert!(!third.shows_selected_page(CardTable::Left));
}

#[test]
fn exactly_one_cell_is_selected() {
    let state = app(11, 100, 3, 3, 20);
    for table in [CardTable::Left, CardTable::Right] {
        for row in 0u32..3 {
            for col in 0u32..3 {
                let expected = table == CardTable::Left && row == 0 && col == 1;
                assert_eq!(state.cell_selected(table, row, col), expected);
            }
        }
    }
    let state = app(24, 100, 3, 3, 20);
    for table in [CardTable::Left, CardTable::Right] {
        for row in 0u32..3 {
            for col in 0u32..3 {
                let expected = table == CardTable::Right && row == 1 && col == 2;
                assert_eq!(state.cell_selected(table, row, col), expected);
            }
        }
    }
}

#[test]
fn a_cell_is_found_by_its_slot_index() {
    let state = app(5, 100, 3, 3, 20);
    assert!(state.cell_selected(CardTable::Right, 1, 1));
    assert!(state.cell_selected(CardTable::Right, 0, 4));
    assert!(!state.cell_selected(CardTable::Right, 0, 1));
    assert!(!state.cell_selected(CardTable::Left, 1, 1));
    let state = app(u32::MAX, u32::MAX, 3, 3, 20);
    assert!(state.cell_selected(CardTable::Right, 0, 2));
    assert!(!state.cell_selected(CardTable::Right, u32::MAX, u32::MAX));
}

#[test]
fn one_table_shows_the_selected_page() {
    for n in 1u32..=100 {
        let state = app(n, 100, 3, 3, 20);
        assert_ne!(
            state.shows_selected_page(CardTable::Left),
            state.shows_selected_page(CardTable::Right)
        );
    }
}

#[test]
fn the_selected_cell_is_the_slot_of_the_card() {
    for (rows, cols) in [(1u32, 1u32), (3, 3), (2, 5), (4, 1)] {
        for n in 1u32..=60 {
            let state = app(n, 100, rows, cols, 20);
            let slot = state.slot();
            let mut selected = 0;
            for table in [CardTable::Left, CardTable::Right] {
                for row in 0..rows {
                    for col in 0..cols {
                        let expected = state.shows_selected_page(table)
                            && row + 1 == slot.row()
                            && col + 1 == slot.col();
                        assert_eq!(state.cell_selected(table, row, col), expected);
                        if expected {
                            selected += 1;
                        }
                    }
                }
            }
            assert_eq!(selected, 1);
        }
    }
}
