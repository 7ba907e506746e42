use rustole::action::Action;
use rustole::cell::{Cell, Color};
use rustole::performer::{CursorVisual, PendingAttributes, Performer};
use rustole::screen::Screen;
use rustole::utils::{move_cursor_left, move_cursor_right};

fn white() -> Color {
    Color::new(255, 255, 255, 255)
}

fn red() -> Color {
    Color::new(255, 0, 0, 255)
}

fn pink() -> Color {
    Color::new(230, 128, 128, 255)
}

/// Eight columns of 20 pixels and three rows of 32, drawn from (20, 21) on.
fn performer() -> Performer {
    Performer::new(Screen::new(32, 20, 160, 96, 20, 21), pink())
}

fn csi(performer: &mut Performer, params: &[&[u16]], action: char) {
    let params: Vec<Vec<u16>> = params.iter().map(|param| param.to_vec()).collect();
    performer.csi_dispatch(&params, &[], false, action);
}

fn print_all(performer: &mut Performer, text: &str) {
    for c in text.chars() {
        performer.print(c);
    }
}

#[test]
fn new_performer_starts_on_the_first_cell() {
    let p = performer();
    assert_eq!(p.screen().rows(), 3);
    assert_eq!(p.screen().cols(), 8);
    assert_eq!(p.attributes(), PendingAttributes { color: pink() });
    assert_eq!(p.cursor(), CursorVisual { x: 20, y: 21 });
    assert!(!p.terminated());
}

#[test]
fn print_writes_in_the_pending_color_and_advances_both_cursors() {
    let mut p = performer();
    p.print('h');
    assert_eq!(p.screen().glyph(0, 0), Some(Cell::with_char('h', pink())));
    assert_eq!(p.screen().column_index(), 1);
    assert_eq!(p.cursor(), CursorVisual { x: 40, y: 21 });
    p.print('漢');
    assert_eq!(p.screen().glyph(0, 1), Some(Cell::with_char('漢', pink())));
    assert_eq!(p.screen().column_index(), 3);
    assert_eq!(p.cursor(), CursorVisual { x: 80, y: 21 });
}

#[test]
fn printing_ascii_advances_the_column_by_the_number_of_characters() {
    let mut p = performer();
    p.print('>');
    for (n, c) in "abcdef".chars().enumerate() {
        p.print(c);
        assert_eq!(p.screen().column_index(), 1 + n + 1);
        assert_eq!(p.screen().row_index(), 0);
    }
}

#[test]
fn printing_past_the_last_column_stays_there() {
    let mut p = performer();
    print_all(&mut p, "0123456789");
    assert_eq!(p.screen().column_index(), 7);
    assert_eq!(p.screen().row_index(), 0);
    assert_eq!(p.cursor(), CursorVisual { x: 160, y: 21 });
    assert_eq!(p.screen().glyph(0, 6).unwrap().character, Some('6'));
    assert_eq!(p.screen().glyph(0, 7).unwrap().character, Some('9'));
    assert_eq!(p.screen().glyph(1, 0), Some(Cell::empty()));
}

#[test]
fn line_feed_moves_one_row_down_and_keeps_the_column() {
    let mut p = performer();
    print_all(&mut p, "ab");
    p.execute(0x0A);
    assert_eq!(p.screen().row_index(), 1);
    assert_eq!(p.screen().column_index(), 2);
    assert_eq!(p.cursor(), CursorVisual { x: 20, y: 53 });
    p.execute(0x0D);
    assert_eq!(p.screen().row_index(), 1);
    assert_eq!(p.screen().column_index(), 0);
    assert_eq!(p.cursor(), CursorVisual { x: 20, y: 53 });
}

#[test]
fn line_feed_on_the_last_row_stays_there() {
    let mut p = performer();
    p.execute(0x0A);
    p.execute(0x0A);
    assert_eq!(p.screen().row_index(), 2);
    assert_eq!(p.cursor(), CursorVisual { x: 20, y: 85 });
    p.print('z');
    p.execute(0x0A);
    assert_eq!(p.screen().row_index(), 2);
    assert_eq!(p.screen().column_index(), 1);
    assert_eq!(p.cursor(), CursorVisual { x: 20, y: 85 });
    assert_eq!(p.screen().glyph(2, 0).unwrap().character, Some('z'));
}

#[test]
fn carriage_return_leaves_the_visual_cursor() {
    let mut p = performer();
    print_all(&mut p, "abc");
    p.execute(0x0D);
    assert_eq!(p.screen().column_index(), 0);
    assert_eq!(p.screen().row_index(), 0);
    assert_eq!(p.cursor(), CursorVisual { x: 80, y: 21 });
}

#[test]
fn backspace_moves_left_and_empties_the_cell() {
    let mut p = performer();
    print_all(&mut p, "ab");
    p.execute(0x08);
    assert_eq!(p.screen().column_index(), 1);
    assert_eq!(p.screen().glyph(0, 1), Some(Cell::empty()));
    assert_eq!(p.screen().glyph(0, 0).unwrap().character, Some('a'));
    assert_eq!(p.cursor(), CursorVisual { x: 40, y: 21 });
}

#[test]
fn backspace_in_the_first_column_changes_nothing() {
    let mut p = performer();
    p.execute(0x08);
    assert_eq!(p.screen().column_index(), 0);
    assert_eq!(p.cursor(), CursorVisual { x: 20, y: 21 });
    print_all(&mut p, "ab");
    p.execute(0x0D);
    p.execute(0x08);
    assert_eq!(p.screen().column_index(), 0);
    assert_eq!(p.cursor(), CursorVisual { x: 60, y: 21 });
    assert_eq!(p.screen().glyph(0, 0).unwrap().character, Some('a'));
}

#[test]
fn visual_cursor_goes_left_of_the_margin() {
    let mut p = performer();
    print_all(&mut p, "ab");
    p.execute(0x0A);
    assert_eq!(p.cursor(), CursorVisual { x: 20, y: 53 });
    p.execute(0x08);
    assert_eq!(p.screen().column_index(), 1);
    assert_eq!(p.cursor(), CursorVisual { x: 0, y: 53 });
    p.execute(0x08);
    assert_eq!(p.screen().column_index(), 0);
    assert_eq!(p.cursor(), CursorVisual { x: -20, y: 53 });
    p.execute(0x08);
    assert_eq!(p.cursor(), CursorVisual { x: -20, y: 53 });
}

#[test]
fn visual_cursor_goes_right_of_the_grid() {
    let mut p = Performer::new(Screen::new(10, 10, 20, 10, 0, 0), pink());
    p.print('a');
    assert_eq!(p.screen().column_index(), 1);
    assert_eq!(p.cursor(), CursorVisual { x: 10, y: 0 });
    p.execute(0x0D);
    assert_eq!(p.screen().column_index(), 0);
    assert_eq!(p.cursor(), CursorVisual { x: 10, y: 0 });
    p.print('b');
    assert_eq!(p.screen().column_index(), 1);
    assert_eq!(p.cursor(), CursorVisual { x: 20, y: 0 });
}

#[test]
fn backspace_after_a_line_feed_steps_left_of_the_margin() {
    let mut p = Performer::new(Screen::new(10, 12, 48, 30, 20, 0), pink());
    print_all(&mut p, "abc");
    assert_eq!(p.cursor(), CursorVisual { x: 56, y: 0 });
    p.execute(0x0A);
    assert_eq!(p.cursor(), CursorVisual { x: 20, y: 10 });
    p.execute(0x08);
    assert_eq!(p.screen().column_index(), 2);
    assert_eq!(p.cursor(), CursorVisual { x: 8, y: 10 });
}

#[test]
fn cursor_left_after_a_line_feed_steps_left_of_the_margin() {
    let mut p = performer();
    print_all(&mut p, "abcd");
    p.execute(0x0A);
    csi(&mut p, &[], 'D');
    assert_eq!(p.screen().column_index(), 3);
    assert_eq!(p.cursor(), CursorVisual { x: 0, y: 53 });
    csi(&mut p, &[&[7]], 'D');
    assert_eq!(p.screen().column_index(), 0);
    assert_eq!(p.cursor(), CursorVisual { x: -60, y: 53 });
}

#[test]
fn a_wide_character_moves_the_visual_cursor_by_two_widths() {
    let mut p = performer();
    p.print('a');
    p.execute(0x0D);
    p.print('漢');
    assert_eq!(p.screen().column_index(), 2);
    assert_eq!(p.cursor(), CursorVisual { x: 80, y: 21 });
    print_all(&mut p, "bcde");
    assert_eq!(p.screen().column_index(), 6);
    p.print('字');
    assert_eq!(p.screen().column_index(), 7);
    assert_eq!(p.cursor(), CursorVisual { x: 180, y: 21 });
}

#[test]
fn the_visual_cursor_starts_on_the_cell_of_the_logical_cursor() {
    let mut screen = Screen::new(32, 20, 160, 96, 20, 21);
    screen.write_char('a', pink());
    screen.write_char('b', pink());
    screen.line_feed();
    let p = Performer::new(screen, pink());
    assert_eq!(p.screen().row_index(), 1);
    assert_eq!(p.screen().column_index(), 2);
    assert_eq!(p.cursor(), CursorVisual { x: 60, y: 53 });
}

#[test]
fn other_control_bytes_change_nothing() {
    let mut p = performer();
    print_all(&mut p, "ab");
    for byte in [0x00u8, 0x07, 0x09, 0x0B, 0x0C, 0x1B, 0x7F, 0x9C, 0xFF] {
        p.execute(byte);
    }
    assert_eq!(p.screen().column_index(), 2);
    assert_eq!(p.screen().row_index(), 0);
    assert_eq!(p.cursor(), CursorVisual { x: 60, y: 21 });
    assert_eq!(p.attributes().color, pink());
}

#[test]
fn rendition_31_is_red_and_0_resets_to_white() {
    let mut p = performer();
    csi(&mut p, &[&[31]], 'm');
    assert_eq!(p.attributes().color, red());
    csi(&mut p, &[&[0]], 'm');
    assert_eq!(p.attributes().color, white());
    csi(&mut p, &[&[31], &[0]], 'm');
    assert_eq!(p.attributes().color, white());
    csi(&mut p, &[&[0], &[31]], 'm');
    assert_eq!(p.attributes().color, red());
}

#[test]
fn rendition_colors() {
    let cases: [(u16, Color); 10] = [
        (0, Color::new(255, 255, 255, 255)),
        (39, Color::new(255, 255, 255, 255)),
        (30, Color::new(0, 0, 0, 255)),
        (31, Color::new(255, 0, 0, 255)),
        (32, Color::new(0, 255, 0, 255)),
        (33, Color::new(255, 255, 0, 255)),
        (34, Color::new(0, 0, 255, 255)),
        (35, Color::new(255, 0, 255, 255)),
        (36, Color::new(0, 255, 255, 255)),
        (37, Color::new(255, 255, 255, 255)),
    ];
    for (code, color) in cases {
        let mut p = performer();
        csi(&mut p, &[&[code]], 'm');
        assert_eq!(p.attributes().color, color);
    }
}

#[test]
fn bold_and_unknown_renditions_are_ignored() {
    let mut p = performer();
    csi(&mut p, &[&[1]], 'm');
    assert_eq!(p.attributes().color, pink());
    csi(&mut p, &[&[32], &[1]], 'm');
    assert_eq!(p.attributes().color, Color::new(0, 255, 0, 255));
    csi(&mut p, &[&[4], &[99], &[40]], 'm');
    assert_eq!(p.attributes().color, Color::new(0, 255, 0, 255));
    csi(&mut p, &[], 'm');
    assert_eq!(p.attributes().color, Color::new(0, 255, 0, 255));
}

#[test]
fn rendition_with_subparameters_is_ignored() {
    let mut p = performer();
    csi(&mut p, &[&[31, 2]], 'm');
    assert_eq!(p.attributes().color, pink());
    csi(&mut p, &[&[38, 5, 1]], 'm');
    assert_eq!(p.attributes().color, pink());
    csi(&mut p, &[&[]], 'm');
    assert_eq!(p.attributes().color, pink());
}

#[test]
fn color_lasts_until_it_is_changed() {
    let mut p = performer();
    csi(&mut p, &[&[34]], 'm');
    print_all(&mut p, "ab");
    p.execute(0x0A);
    p.print('c');
    let blue = Color::new(0, 0, 255, 255);
    assert_eq!(p.screen().glyph(0, 0).unwrap().color, blue);
    assert_eq!(p.screen().glyph(0, 1).unwrap().color, blue);
    assert_eq!(p.screen().glyph(1, 2).unwrap().color, blue);
}

#[test]
fn rendition_leaves_the_grid_and_the_cursors() {
    let mut p = performer();
    print_all(&mut p, "ab");
    csi(&mut p, &[&[31]], 'm');
    assert_eq!(p.screen().column_index(), 2);
    assert_eq!(p.cursor(), CursorVisual { x: 60, y: 21 });
    assert_eq!(p.screen().glyph(0, 0).unwrap().color, pink());
}

#[test]
fn cursor_left_without_parameter_moves_by_one() {
    let mut p = performer();
    print_all(&mut p, "abc");
    csi(&mut p, &[], 'D');
    assert_eq!(p.screen().column_index(), 2);
    assert_eq!(p.cursor(), CursorVisual { x: 60, y: 21 });
    csi(&mut p, &[&[0]], 'D');
    assert_eq!(p.screen().column_index(), 1);
    assert_eq!(p.cursor(), CursorVisual { x: 40, y: 21 });
    csi(&mut p, &[&[]], 'D');
    assert_eq!(p.screen().column_index(), 0);
    assert_eq!(p.cursor(), CursorVisual { x: 20, y: 21 });
    assert_eq!(p.screen().glyph(0, 2).unwrap().character, Some('c'));
}

#[test]
fn cursor_left_in_the_first_column_changes_nothing() {
    let mut p = performer();
    csi(&mut p, &[], 'D');
    assert_eq!(p.screen().column_index(), 0);
    assert_eq!(p.cursor(), CursorVisual { x: 20, y: 21 });
    print_all(&mut p, "ab");
    p.execute(0x0D);
    csi(&mut p, &[&[0]], 'D');
    csi(&mut p, &[&[5]], 'D');
    assert_eq!(p.screen().column_index(), 0);
    assert_eq!(p.screen().row_index(), 0);
    assert_eq!(p.cursor(), CursorVisual { x: 60, y: 21 });
}

#[test]
fn cursor_left_by_a_count_stops_in_the_first_column() {
    let mut p = performer();
    print_all(&mut p, "abcde");
    csi(&mut p, &[&[2]], 'D');
    assert_eq!(p.screen().column_index(), 3);
    assert_eq!(p.cursor(), CursorVisual { x: 80, y: 21 });
    csi(&mut p, &[&[3, 9], &[1]], 'D');
    assert_eq!(p.screen().column_index(), 0);
    assert_eq!(p.cursor(), CursorVisual { x: 20, y: 21 });
    print_all(&mut p, "ab");
    csi(&mut p, &[&[65535]], 'D');
    assert_eq!(p.screen().column_index(), 0);
    assert_eq!(p.cursor(), CursorVisual { x: 20, y: 21 });
}

#[test]
fn erase_display_mode_2_clears_and_homes() {
    let mut p = performer();
    csi(&mut p, &[&[31]], 'm');
    print_all(&mut p, "ab");
    p.execute(0x0A);
    print_all(&mut p, "cd");
    csi(&mut p, &[&[2]], 'J');
    assert_eq!(p.screen().rows(), 3);
    assert_eq!(p.screen().cols(), 8);
    for row in 0..3 {
        for column in 0..8 {
            assert_eq!(p.screen().glyph(row, column), Some(Cell::empty()));
        }
    }
    assert_eq!(p.screen().row_index(), 0);
    assert_eq!(p.screen().column_index(), 0);
    assert_eq!(p.cursor(), CursorVisual { x: 20, y: 21 });
    assert_eq!(p.attributes().color, red());
}

#[test]
fn erase_display_with_mode_2_among_others_clears() {
    let mut p = performer();
    print_all(&mut p, "ab");
    csi(&mut p, &[&[0], &[2]], 'J');
    assert_eq!(p.screen().glyph(0, 0), Some(Cell::empty()));
    assert_eq!(p.screen().column_index(), 0);
}

#[test]
fn erase_display_other_modes_change_nothing() {
    let mut p = performer();
    print_all(&mut p, "ab");
    p.execute(0x0A);
    csi(&mut p, &[], 'J');
    csi(&mut p, &[&[0]], 'J');
    csi(&mut p, &[&[1]], 'J');
    csi(&mut p, &[&[3]], 'J');
    csi(&mut p, &[&[2, 0]], 'J');
    csi(&mut p, &[&[0], &[1]], 'J');
    assert_eq!(p.screen().glyph(0, 0).unwrap().character, Some('a'));
    assert_eq!(p.screen().glyph(0, 1).unwrap().character, Some('b'));
    assert_eq!(p.screen().row_index(), 1);
    assert_eq!(p.screen().column_index(), 2);
    assert_eq!(p.cursor(), CursorVisual { x: 20, y: 53 });
}

#[test]
fn other_sequences_change_nothing() {
    let mut p = performer();
    print_all(&mut p, "ab");
    for action in ['A', 'B', 'C', 'H', 'K', 'h', 'l', 'M', 'd', 'j'] {
        csi(&mut p, &[&[2]], action);
    }
    p.esc_dispatch(&[b'('], false, b'B');
    p.hook(&vec![vec![1]], &[], false, 'q');
    p.put(b'x');
    p.unhook();
    p.osc_dispatch(&vec![b"0".to_vec(), b"title".to_vec()], true);
    assert_eq!(p.screen().glyph(0, 0).unwrap().character, Some('a'));
    assert_eq!(p.screen().glyph(0, 1).unwrap().character, Some('b'));
    assert_eq!(p.screen().column_index(), 2);
    assert_eq!(p.screen().row_index(), 0);
    assert_eq!(p.cursor(), CursorVisual { x: 60, y: 21 });
    assert_eq!(p.attributes().color, pink());
}

#[test]
fn intermediates_and_ignore_flag_decide_nothing() {
    let mut p = performer();
    p.csi_dispatch(&vec![vec![31]], &[b'?', b'>'], true, 'm');
    assert_eq!(p.attributes().color, red());
}

#[test]
fn apply_performs_one_action() {
    let mut p = performer();
    assert!(p.apply(&Action::Print('a')));
    assert!(p.apply(&Action::Execute(0x0A)));
    p.apply(&Action::CsiDispatch {
        params: vec![vec![31]],
        intermediates: vec![],
        ignore: false,
        action: 'm',
    });
    p.apply(&Action::Print('b'));
    p.apply(&Action::Unhook);
    p.apply(&Action::Put(1));
    p.apply(&Action::EscDispatch { intermediates: vec![], ignore: false, byte: b'7' });
    p.apply(&Action::Hook { params: vec![], intermediates: vec![], ignore: false, action: 'q' });
    p.apply(&Action::OscDispatch { parts: vec![], bell_terminated: false });
    assert_eq!(p.screen().glyph(0, 0), Some(Cell::with_char('a', pink())));
    assert_eq!(p.screen().glyph(1, 1), Some(Cell::with_char('b', red())));
    assert_eq!(p.screen().row_index(), 1);
    assert_eq!(p.screen().column_index(), 2);
}

#[test]
fn apply_all_performs_the_actions_in_order() {
    let actions = vec![
        Action::CsiDispatch {
            params: vec![vec![31]],
            intermediates: vec![],
            ignore: false,
            action: 'm',
        },
        Action::Print('a'),
        Action::CsiDispatch {
            params: vec![vec![0]],
            intermediates: vec![],
            ignore: false,
            action: 'm',
        },
        Action::Print('b'),
        Action::Execute(0x0D),
        Action::Execute(0x0A),
        Action::Print('c'),
    ];
    let mut all = performer();
    assert!(all.apply_all(&actions));
    let mut one_by_one = performer();
    for action in &actions {
        one_by_one.apply(action);
    }
    assert_eq!(all.screen().glyph(0, 0), Some(Cell::with_char('a', red())));
    assert_eq!(all.screen().glyph(0, 1), Some(Cell::with_char('b', white())));
    assert_eq!(all.screen().glyph(1, 0), Some(Cell::with_char('c', white())));
    assert_eq!(all.screen().row_index(), 1);
    assert_eq!(all.screen().column_index(), 1);
    assert_eq!(all.cursor(), CursorVisual { x: 40, y: 53 });
    assert_eq!(all.cursor(), one_by_one.cursor());
    assert_eq!(all.attributes(), one_by_one.attributes());
    for row in 0..3 {
        for column in 0..8 {
            assert_eq!(all.screen().glyph(row, column), one_by_one.screen().glyph(row, column));
        }
    }
    assert!(all.apply_all(&vec![]));
    assert_eq!(all.screen().column_index(), 1);
}

#[test]
fn cursor_right_and_left_move_by_whole_widths() {
    let mut p = performer();
    p.cursor_right(3);
    assert_eq!(p.cursor(), CursorVisual { x: 80, y: 21 });
    p.cursor_right(65535);
    assert_eq!(p.cursor(), CursorVisual { x: 80 + 65535 * 20, y: 21 });
    p.cursor_left(65535);
    p.cursor_left(2);
    assert_eq!(p.cursor(), CursorVisual { x: 40, y: 21 });
    p.cursor_left(0);
    assert_eq!(p.cursor(), CursorVisual { x: 40, y: 21 });
    p.cursor_left(5);
    assert_eq!(p.cursor(), CursorVisual { x: -60, y: 21 });
    assert_eq!(p.screen().column_index(), 0);
}

#[test]
fn move_cursor_helpers_move_by_one_width() {
    let mut p = performer();
    move_cursor_right(&mut p);
    move_cursor_right(&mut p);
    assert_eq!(p.cursor(), CursorVisual { x: 60, y: 21 });
    move_cursor_left(&mut p);
    assert_eq!(p.cursor(), CursorVisual { x: 40, y: 21 });
    move_cursor_left(&mut p);
    move_cursor_left(&mut p);
    assert_eq!(p.cursor(), CursorVisual { x: 0, y: 21 });
    for _ in 0..20 {
        move_cursor_right(&mut p);
    }
    assert_eq!(p.cursor(), CursorVisual { x: 400, y: 21 });
}

/// Two columns of 2147483647 pixels, with the visual cursor moved right as
/// far as whole steps of 65535 widths go.
fn performer_at_the_right_end() -> Performer {
    let mut p = Performer::new(Screen::new(1, 2147483647, u32::MAX, 1, 0, 0), pink());
    assert_eq!(p.screen().cols(), 2);
    while p.can_move_right(65535) {
        p.cursor_right(65535);
    }
    while p.can_move_right(1) {
        p.cursor_right(1);
    }
    p
}

#[test]
fn a_print_that_the_visual_cursor_cannot_follow_is_not_performed() {
    let mut p = performer_at_the_right_end();
    let x = p.cursor().x;
    assert!(x > i64::MAX - 2147483647);
    assert!(!p.can_print('a'));
    assert!(!p.can_apply(&Action::Print('a')));
    assert!(!p.apply(&Action::Print('a')));
    assert_eq!(p.cursor().x, x);
    assert_eq!(p.screen().column_index(), 0);
    assert_eq!(p.screen().glyph(0, 0), Some(Cell::empty()));
    assert!(p.can_execute(0x0A));
    assert!(p.apply(&Action::Execute(0x0A)));
    assert_eq!(p.cursor(), CursorVisual { x: 0, y: 0 });
    assert!(p.apply(&Action::Print('a')));
    assert_eq!(p.cursor(), CursorVisual { x: 2147483647, y: 0 });
}

#[test]
fn apply_all_stops_at_the_first_action_that_cannot_be_followed() {
    let mut p = performer_at_the_right_end();
    let x = p.cursor().x;
    let actions = vec![
        Action::Execute(0x0D),
        Action::CsiDispatch {
            params: vec![vec![31]],
            intermediates: vec![],
            ignore: false,
            action: 'm',
        },
        Action::Print('a'),
        Action::Execute(0x0A),
        Action::Print('b'),
    ];
    assert!(!p.apply_all(&actions));
    assert_eq!(p.attributes().color, red());
    assert_eq!(p.cursor().x, x);
    assert_eq!(p.screen().glyph(0, 0), Some(Cell::empty()));
    assert_eq!(p.screen().column_index(), 0);
}

#[test]
fn a_move_left_that_the_visual_cursor_cannot_follow_is_not_performed() {
    let mut p = Performer::new(Screen::new(1, 2147483647, u32::MAX, 1, 0, 0), pink());
    p.print('a');
    assert_eq!(p.screen().column_index(), 1);
    while p.can_move_left(65535) {
        p.cursor_left(65535);
    }
    while p.can_move_left(1) {
        p.cursor_left(1);
    }
    let x = p.cursor().x;
    assert!(!p.can_execute(0x08));
    assert!(!p.apply(&Action::Execute(0x08)));
    assert!(!p.can_csi_dispatch(&vec![vec![1]], 'D'));
    assert!(!p.apply(&Action::CsiDispatch {
        params: vec![],
        intermediates: vec![],
        ignore: false,
        action: 'D',
    }));
    assert_eq!(p.cursor().x, x);
    assert_eq!(p.screen().column_index(), 1);
    assert_eq!(p.screen().glyph(0, 0).unwrap().character, Some('a'));
    assert!(p.can_csi_dispatch(&vec![vec![31]], 'm'));
    assert!(p.can_execute(0x0D));
}

#[test]
fn resize_rebuilds_the_grid_and_keeps_the_visual_column() {
    let mut p = performer();
    print_all(&mut p, "abcdef");
    p.execute(0x0A);
    p.execute(0x0A);
    print_all(&mut p, "x");
    assert_eq!(p.cursor(), CursorVisual { x: 40, y: 85 });
    assert!(p.resize(60, 64));
    assert_eq!(p.screen().rows(), 2);
    assert_eq!(p.screen().cols(), 3);
    assert_eq!(p.screen().glyph(0, 2).unwrap().character, Some('c'));
    assert_eq!(p.screen().row_index(), 1);
    assert_eq!(p.screen().column_index(), 2);
    assert_eq!(p.cursor(), CursorVisual { x: 40, y: 53 });
    assert_eq!(p.attributes().color, pink());
    assert!(p.resize(400, 400));
    assert_eq!(p.screen().rows(), 12);
    assert_eq!(p.screen().cols(), 20);
    assert_eq!(p.screen().glyph(0, 0).unwrap().character, Some('a'));
    assert_eq!(p.cursor(), CursorVisual { x: 40, y: 53 });
}

#[test]
fn performer_resize_below_one_cell_changes_nothing() {
    let mut p = performer();
    print_all(&mut p, "ab");
    assert!(!p.resize(19, 96));
    assert!(!p.resize(160, 31));
    assert_eq!(p.screen().rows(), 3);
    assert_eq!(p.screen().cols(), 8);
    assert_eq!(p.cursor(), CursorVisual { x: 60, y: 21 });
}
