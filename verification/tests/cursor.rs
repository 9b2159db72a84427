use font_previewer::font_info::CurrentFont;

#[test]
fn advance_then_retreat_round_trip() {
    for count in [1u32, 2, 3, 13, 51] {
        for start in 0..count {
            let mut cursor = CurrentFont(start);
            cursor.advance(count);
            cursor.retreat(count);
            assert_eq!(cursor.0, start);
            cursor.retreat(count);
            cursor.advance(count);
            assert_eq!(cursor.0, start);
        }
    }
}

#[test]
fn single_entry_catalog_steps_are_identity() {
    let mut cursor = CurrentFont::new();
    cursor.advance(1);
    assert_eq!(cursor.0, 0);
    cursor.retreat(1);
    assert_eq!(cursor.0, 0);
}

#[test]
fn previous_from_first_wraps_to_last_of_thirteen() {
    let mut cursor = CurrentFont::new();
    assert_eq!(cursor.0, 0);
    cursor.retreat(13);
    assert_eq!(cursor.0, 12);
    cursor.advance(13);
    assert_eq!(cursor.0, 0);
}

#[test]
fn next_from_last_wraps_to_first_of_thirteen() {
    let mut cursor = CurrentFont(12);
    cursor.advance(13);
    assert_eq!(cursor.0, 0);
}

#[test]
fn interior_steps_move_by_one() {
    let mut cursor = CurrentFont(5);
    cursor.advance(13);
    assert_eq!(cursor.0, 6);
    cursor.retreat(13);
    assert_eq!(cursor.0, 5);
    cursor.retreat(13);
    assert_eq!(cursor.0, 4);
}

#[test]
fn new_cursor_starts_at_first_entry() {
    assert_eq!(CurrentFont::new().0, 0);
}
