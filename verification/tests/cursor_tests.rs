use bib_catalog::cursor::SelectionCursor;

#[test]
fn empty_list_never_selects() {
    let mut c = SelectionCursor::new();
    assert_eq!(c.selected(), None);
    c.select_down(0);
    assert_eq!(c.selected(), None);
    c.select_up(0);
    assert_eq!(c.selected(), None);

    // Even a seeded cursor loses its selection once the list is empty.
    c.seed();
    assert_eq!(c.selected(), Some(0));
    c.select_down(0);
    assert_eq!(c.selected(), None);
    c.seed();
    c.select_up(0);
    assert_eq!(c.selected(), None);
}

#[test]
fn unseeded_cursor_stays_put() {
    let mut c = SelectionCursor::new();
    c.select_down(5);
    assert_eq!(c.selected(), None);
    c.select_up(5);
    assert_eq!(c.selected(), None);
}

#[test]
fn down_cycles_over_the_list() {
    let mut c = SelectionCursor::new();
    c.seed();
    // Over 4 rows, starting at 2: four downward steps return to 2.
    c.select_down(4);
    c.select_down(4);
    assert_eq!(c.selected(), Some(2));
    for _ in 0..4 {
        c.select_down(4);
    }
    assert_eq!(c.selected(), Some(2));
}

#[test]
fn up_from_first_wraps_to_last() {
    let mut c = SelectionCursor::new();
    c.seed();
    assert_eq!(c.selected(), Some(0));
    c.select_up(7);
    assert_eq!(c.selected(), Some(6));
    c.select_down(7);
    assert_eq!(c.selected(), Some(0));
}

#[test]
fn seed_keeps_an_existing_selection() {
    let mut c = SelectionCursor::new();
    c.seed();
    c.select_down(3);
    assert_eq!(c.selected(), Some(1));
    c.seed();
    assert_eq!(c.selected(), Some(1));
}
