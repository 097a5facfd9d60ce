use walk_the_dog::sheet::{cell_name_string, decimal_string};
use walk_the_dog::{Cell, KeyState, Sheet, SheetRect};

fn cell(x: i16, y: i16, w: i16, h: i16) -> Cell {
    Cell { frame: SheetRect { x, y, w, h } }
}

#[test]
fn decimal_string_of_every_length() {
    assert_eq!(decimal_string(0), "0");
    assert_eq!(decimal_string(7), "7");
    assert_eq!(decimal_string(9), "9");
    assert_eq!(decimal_string(10), "10");
    assert_eq!(decimal_string(12), "12");
    assert_eq!(decimal_string(99), "99");
    assert_eq!(decimal_string(100), "100");
    assert_eq!(decimal_string(205), "205");
    assert_eq!(decimal_string(255), "255");
}

#[test]
fn decimal_string_agrees_with_the_standard_library() {
    for n in 0..=255u8 {
        assert_eq!(decimal_string(n), n.to_string());
    }
}

#[test]
fn cell_name_counts_cells_from_one() {
    assert_eq!(cell_name_string("Idle", 0), "Idle (1).png");
    assert_eq!(cell_name_string("Idle", 2), "Idle (1).png");
    assert_eq!(cell_name_string("Idle", 3), "Idle (2).png");
    assert_eq!(cell_name_string("Run", 7), "Run (3).png");
    assert_eq!(cell_name_string("Run", 10), "Run (4).png");
}

#[test]
fn cell_name_at_the_ceilings() {
    assert_eq!(cell_name_string("Idle", 29), "Idle (10).png");
    assert_eq!(cell_name_string("Run", 23), "Run (8).png");
    assert_eq!(cell_name_string("Slide", 13), "Slide (5).png");
    assert_eq!(cell_name_string("Jump", 35), "Jump (12).png");
    assert_eq!(cell_name_string("", 255), " (86).png");
}

#[test]
fn sheet_finds_what_was_inserted() {
    let mut sheet = Sheet::new();
    assert_eq!(sheet.get("Run (1).png"), None);
    sheet.insert("Run (1).png".to_string(), cell(1, 2, 3, 4));
    sheet.insert("Run (2).png".to_string(), cell(5, 6, 7, 8));
    assert_eq!(sheet.get("Run (1).png"), Some(cell(1, 2, 3, 4)));
    assert_eq!(sheet.get("Run (2).png"), Some(cell(5, 6, 7, 8)));
    assert_eq!(sheet.get("Run (3).png"), None);
    assert_eq!(sheet.get("run (1).png"), None);
}

#[test]
fn sheet_keeps_the_last_cell_of_a_name() {
    let mut sheet = Sheet::new();
    sheet.insert("Idle (1).png".to_string(), cell(1, 2, 3, 4));
    sheet.insert("Idle (1).png".to_string(), cell(9, 9, 9, 9));
    assert_eq!(sheet.get("Idle (1).png"), Some(cell(9, 9, 9, 9)));
}

#[test]
fn key_state_follows_presses_and_releases() {
    let mut keys = KeyState::new();
    assert!(!keys.is_pressed("ArrowRight"));
    keys.set_pressed("ArrowRight");
    keys.set_pressed("Space");
    assert!(keys.is_pressed("ArrowRight"));
    assert!(keys.is_pressed("Space"));
    assert!(!keys.is_pressed("ArrowDown"));
    keys.set_pressed("ArrowRight");
    keys.set_released("ArrowRight");
    assert!(!keys.is_pressed("ArrowRight"));
    assert!(keys.is_pressed("Space"));
    keys.set_released("ArrowDown");
    assert!(!keys.is_pressed("ArrowDown"));
}
