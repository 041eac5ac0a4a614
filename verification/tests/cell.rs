use game_of_life::cell::{ALIVE_GLYPH, DEAD_GLYPH};
use game_of_life::Cell;

#[test]
fn toggle_flips_dead_to_alive() {
    let mut cell = Cell::Dead;
    cell.toggle();
    assert_eq!(cell, Cell::Alive);
}

#[test]
fn toggle_flips_alive_to_dead() {
    let mut cell = Cell::Alive;
    cell.toggle();
    assert_eq!(cell, Cell::Dead);
}

#[test]
fn toggle_twice_restores_the_cell() {
    for start in [Cell::Dead, Cell::Alive] {
        let mut cell = start;
        cell.toggle();
        assert_ne!(cell, start);
        cell.toggle();
        assert_eq!(cell, start);
    }
}

#[test]
fn value_is_zero_for_dead_and_one_for_alive() {
    assert_eq!(Cell::Dead.value(), 0);
    assert_eq!(Cell::Alive.value(), 1);
}

#[test]
fn seed_is_alive_on_multiples_of_two_or_seven() {
    let alive = [0usize, 2, 4, 6, 7, 8, 10, 12, 14, 16, 18, 20, 21, 22, 35, 49, 63, 4094, 4095];
    for x in alive {
        assert_eq!(Cell::seed(x), Cell::Alive, "index {}", x);
    }
    let dead = [1usize, 3, 5, 9, 11, 13, 15, 17, 19, 23, 25, 4093];
    for x in dead {
        assert_eq!(Cell::seed(x), Cell::Dead, "index {}", x);
    }
}

#[test]
fn seed_agrees_with_the_formula_on_a_long_range() {
    for x in 0usize..10_000 {
        let expected = if x % 2 == 0 || x % 7 == 0 { Cell::Alive } else { Cell::Dead };
        assert_eq!(Cell::seed(x), expected, "index {}", x);
    }
}

#[test]
fn three_live_neighbours_give_birth() {
    assert_eq!(Cell::Dead.step(3), Cell::Alive);
}

#[test]
fn three_live_neighbours_keep_alive() {
    assert_eq!(Cell::Alive.step(3), Cell::Alive);
}

#[test]
fn two_live_neighbours_keep_alive() {
    assert_eq!(Cell::Alive.step(2), Cell::Alive);
}

#[test]
fn two_live_neighbours_give_no_birth() {
    assert_eq!(Cell::Dead.step(2), Cell::Dead);
}

#[test]
fn alive_dies_of_isolation() {
    assert_eq!(Cell::Alive.step(0), Cell::Dead);
    assert_eq!(Cell::Alive.step(1), Cell::Dead);
}

#[test]
fn alive_dies_of_overcrowding() {
    for n in 4u8..=8 {
        assert_eq!(Cell::Alive.step(n), Cell::Dead, "{} neighbours", n);
    }
}

#[test]
fn dead_stays_dead_with_too_few_neighbours() {
    assert_eq!(Cell::Dead.step(0), Cell::Dead);
    assert_eq!(Cell::Dead.step(1), Cell::Dead);
}

#[test]
fn dead_stays_dead_with_too_many_neighbours() {
    for n in 4u8..=8 {
        assert_eq!(Cell::Dead.step(n), Cell::Dead, "{} neighbours", n);
    }
}

#[test]
fn rule_table_is_complete() {
    for n in 0u8..=8 {
        let born = n == 3;
        let survives = n == 2 || n == 3;
        assert_eq!(Cell::Dead.step(n) == Cell::Alive, born, "dead with {}", n);
        assert_eq!(Cell::Alive.step(n) == Cell::Alive, survives, "alive with {}", n);
    }
}

#[test]
fn glyphs_are_a_filled_and_an_empty_square() {
    assert_eq!(ALIVE_GLYPH, '■');
    assert_eq!(DEAD_GLYPH, '□');
    assert_eq!(Cell::Alive.glyph(), "■");
    assert_eq!(Cell::Dead.glyph(), "□");
    assert_eq!(Cell::Alive.glyph().chars().count(), 1);
    assert_eq!(Cell::Dead.glyph().chars().count(), 1);
}
