use ror2_command::{item_to_screen_pos, GridError, ItemClass, ItemPos, ScreenInfo};
use ror2_command::robot::MousePos;

fn screen() -> ScreenInfo {
    ScreenInfo {
        item_icon_size: 76,
        item_icon_margin: 6,
        screen_size: (1920, 1080),
        grid_size: vec![
            (ItemClass::White, (5, 5)),
            (ItemClass::Green, (5, 5)),
            (ItemClass::Red, (5, 4)),
        ],
    }
}

#[test]
fn top_left_icon_center() {
    // grid 5 * 76 + 4 * 6 = 404 wide, so it starts at 960 - 202 = 758
    let p = item_to_screen_pos(&screen(), &ItemClass::White, ItemPos(0, 0));
    assert_eq!(p, Ok(MousePos(796, 376)));
}

#[test]
fn far_corner_icon_center() {
    // 4 icons and 3 margins past the first centre
    let p = item_to_screen_pos(&screen(), &ItemClass::White, ItemPos(4, 4));
    assert_eq!(p, Ok(MousePos(796 + 4 * 76 + 3 * 6, 376 + 4 * 76 + 3 * 6)));
    assert_eq!(p, Ok(MousePos(1118, 698)));
}

#[test]
fn grid_height_follows_class() {
    // 4 rows: 4 * 76 + 3 * 6 = 322, starting at 540 - 161 = 379
    let p = item_to_screen_pos(&screen(), &ItemClass::Red, ItemPos(0, 0));
    assert_eq!(p, Ok(MousePos(796, 417)));
}

#[test]
fn unknown_class_has_no_position() {
    let p = item_to_screen_pos(&screen(), &ItemClass::Lunar, ItemPos(0, 0));
    assert_eq!(p, Err(GridError::UnknownClass));
    let p = item_to_screen_pos(&screen(), &ItemClass::BossItem, ItemPos(3, 3));
    assert_eq!(p, Err(GridError::UnknownClass));
}

#[test]
fn neighbouring_cells_are_icon_and_margin_apart() {
    let s = screen();
    for col in 1..6u32 {
        let a = item_to_screen_pos(&s, &ItemClass::Green, ItemPos(col, 2)).unwrap();
        let b = item_to_screen_pos(&s, &ItemClass::Green, ItemPos(col + 1, 2)).unwrap();
        assert_eq!(b.0 - a.0, 82);
        assert_eq!(b.1, a.1);
    }
    for row in 1..6u32 {
        let a = item_to_screen_pos(&s, &ItemClass::Green, ItemPos(2, row)).unwrap();
        let b = item_to_screen_pos(&s, &ItemClass::Green, ItemPos(2, row + 1)).unwrap();
        assert_eq!(b.1 - a.1, 82);
    }
}

#[test]
fn first_two_cells_are_one_icon_apart() {
    let s = screen();
    let a = item_to_screen_pos(&s, &ItemClass::Green, ItemPos(0, 0)).unwrap();
    let b = item_to_screen_pos(&s, &ItemClass::Green, ItemPos(1, 0)).unwrap();
    assert_eq!(b.0 - a.0, 76);
}

#[test]
fn first_entry_for_a_class_counts() {
    let mut s = screen();
    s.grid_size.push((ItemClass::White, (1, 1)));
    let p = item_to_screen_pos(&s, &ItemClass::White, ItemPos(0, 0));
    assert_eq!(p, Ok(MousePos(796, 376)));
}

#[test]
fn point_outside_i32_is_out_of_range() {
    let mut s = screen();
    s.screen_size = (u32::MAX, 1080);
    // 2147483647 - 202 + 38 fits; ten cells further on does not
    let p = item_to_screen_pos(&s, &ItemClass::White, ItemPos(0, 0));
    assert_eq!(p, Ok(MousePos(2147483483, 376)));
    let p = item_to_screen_pos(&s, &ItemClass::White, ItemPos(10, 0));
    assert_eq!(p, Err(GridError::OutOfRange));
}

#[test]
fn empty_grid_rounds_down() {
    let mut s = screen();
    s.grid_size = vec![(ItemClass::UseItem, (0, 1))];
    // width 0 * 76 - 6 = -6, half -3: 960 + 3 + 38
    let p = item_to_screen_pos(&s, &ItemClass::UseItem, ItemPos(0, 0));
    assert_eq!(p, Ok(MousePos(1001, 540 - 38 + 38)));
}
