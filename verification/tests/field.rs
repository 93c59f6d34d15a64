use percent_change::buffer::Direction;
use percent_change::field::{Field, Visual};
use percent_change::input::{Input, Key};

fn input(key: Key, ctrl: bool, alt: bool, shift: bool) -> Input {
    Input { key, ctrl, alt, shift }
}

fn type_text(field: &mut Field, text: &str) {
    for c in text.chars() {
        assert!(field.input(&Input::plain(Key::Char(c))));
    }
}

fn field_with(text: &str) -> Field {
    let mut field = Field::new(true);
    type_text(&mut field, text);
    field
}

#[test]
fn a_new_field_is_empty() {
    let field = Field::new(true);
    assert_eq!(field.lines(), vec![String::new()]);
    assert_eq!(field.text(), "");
    assert_eq!(field.cursor(), (0, 0));
    assert_eq!(field.selection_range(), None);
    assert!(!field.is_valid());
}

#[test]
fn a_new_field_is_active_or_not() {
    assert!(Field::new(true).is_active());
    assert_eq!(Field::new(true).visual(), Visual::Active);
    assert!(!Field::new(false).is_active());
    assert_eq!(Field::new(false).visual(), Visual::Inactive);
}

#[test]
fn set_active_changes_the_visual_state_only() {
    let mut field = field_with("12");
    field.set_active(false);
    assert_eq!(field.visual(), Visual::Inactive);
    assert_eq!(field.text(), "12");
    assert_eq!(field.cursor(), (0, 2));
    field.set_active(true);
    assert_eq!(field.visual(), Visual::Active);
    assert_eq!(field.text(), "12");
}

#[test]
fn a_typed_character_goes_in_at_the_cursor() {
    let mut field = field_with("13");
    assert_eq!(field.cursor(), (0, 2));
    assert!(!field.input(&Input::plain(Key::Left)));
    assert_eq!(field.cursor(), (0, 1));
    assert!(field.input(&Input::plain(Key::Char('2'))));
    assert_eq!(field.lines(), vec!["123".to_string()]);
    assert_eq!(field.cursor(), (0, 2));
}

#[test]
fn a_typed_character_may_come_with_shift() {
    let mut field = Field::new(true);
    assert!(field.input(&input(Key::Char('E'), false, false, true)));
    assert_eq!(field.text(), "E");
}

#[test]
fn a_typed_character_replaces_the_selection() {
    let mut field = field_with("1234");
    assert!(!field.input(&input(Key::Left, false, false, true)));
    assert!(!field.input(&input(Key::Left, false, false, true)));
    assert_eq!(field.selection_range(), Some(((0, 2), (0, 4))));
    assert!(field.input(&Input::plain(Key::Char('9'))));
    assert_eq!(field.text(), "129");
    assert_eq!(field.cursor(), (0, 3));
    assert_eq!(field.selection_range(), None);
}

#[test]
fn the_selection_is_given_in_reading_order() {
    let mut field = field_with("1234");
    field.input(&Input::plain(Key::Home));
    field.input(&Input::plain(Key::Right));
    assert_eq!(field.selection_range(), None);
    field.input(&input(Key::Right, false, false, true));
    field.input(&input(Key::Right, false, false, true));
    assert_eq!(field.cursor(), (0, 3));
    assert_eq!(field.selection_range(), Some(((0, 1), (0, 3))));
    field.input(&input(Key::Home, false, false, true));
    assert_eq!(field.cursor(), (0, 0));
    assert_eq!(field.selection_range(), Some(((0, 0), (0, 1))));
    field.input(&input(Key::Right, false, false, true));
    assert_eq!(field.selection_range(), Some(((0, 1), (0, 1))));
}

#[test]
fn backspace_is_an_edit_of_the_text_area() {
    let mut field = field_with("12");
    assert!(field.input(&Input::plain(Key::Backspace)));
    assert_eq!(field.text(), "1");
    assert!(field.input(&Input::plain(Key::Backspace)));
    assert_eq!(field.text(), "");
    assert!(!field.input(&Input::plain(Key::Backspace)));
}

#[test]
fn delete_char_before_cursor_takes_one_character() {
    let mut field = field_with("123");
    field.input(&Input::plain(Key::Left));
    assert!(field.delete_char_before_cursor());
    assert_eq!(field.text(), "13");
    assert_eq!(field.cursor(), (0, 1));
}

#[test]
fn delete_char_before_cursor_finds_nothing_at_the_start() {
    let mut field = field_with("12");
    field.input(&Input::plain(Key::Home));
    assert!(!field.delete_char_before_cursor());
    assert_eq!(field.text(), "12");
    assert_eq!(field.cursor(), (0, 0));
    let mut empty = Field::new(false);
    assert!(!empty.delete_char_before_cursor());
    assert_eq!(empty.lines(), vec![String::new()]);
}

#[test]
fn delete_char_before_cursor_joins_two_lines() {
    let mut field = field_with("12");
    field.input(&Input::plain(Key::Left));
    assert!(field.input(&Input::plain(Key::Char('\n'))));
    assert_eq!(field.lines(), vec!["1".to_string(), "2".to_string()]);
    assert_eq!(field.text(), "1\n2");
    assert_eq!(field.cursor(), (1, 0));
    assert!(field.delete_char_before_cursor());
    assert_eq!(field.lines(), vec!["12".to_string()]);
    assert_eq!(field.cursor(), (0, 1));
}

#[test]
fn delete_char_before_cursor_takes_the_selection() {
    let mut field = field_with("12345");
    field.input(&Input::plain(Key::Left));
    field.input(&input(Key::Left, false, false, true));
    field.input(&input(Key::Left, false, false, true));
    assert_eq!(field.selection_range(), Some(((0, 2), (0, 4))));
    assert!(field.delete_char_before_cursor());
    assert_eq!(field.text(), "125");
    assert_eq!(field.cursor(), (0, 2));
    assert_eq!(field.selection_range(), None);
}

#[test]
fn delete_char_before_cursor_takes_a_selection_over_lines() {
    let mut field = field_with("12");
    field.input(&Input::plain(Key::Char('\n')));
    type_text(&mut field, "34");
    field.input(&Input::plain(Key::Char('\n')));
    type_text(&mut field, "56");
    assert_eq!(field.lines(), vec!["12".to_string(), "34".to_string(), "56".to_string()]);
    field.input(&Input::plain(Key::Left));
    field.input(&input(Key::Up, false, false, true));
    field.input(&input(Key::Up, false, false, true));
    assert_eq!(field.selection_range(), Some(((0, 1), (2, 1))));
    assert!(field.delete_char_before_cursor());
    assert_eq!(field.lines(), vec!["16".to_string()]);
    assert_eq!(field.cursor(), (0, 1));
}

#[test]
fn delete_char_before_cursor_ends_an_empty_selection() {
    let mut field = field_with("12");
    field.input(&input(Key::Left, false, false, true));
    field.input(&input(Key::Right, false, false, true));
    assert_eq!(field.selection_range(), Some(((0, 2), (0, 2))));
    assert!(field.delete_char_before_cursor());
    assert_eq!(field.text(), "1");
    assert_eq!(field.selection_range(), None);
}

#[test]
fn delete_char_before_cursor_undoes_a_typed_character() {
    let mut field = field_with("15");
    field.input(&Input::plain(Key::Left));
    let before = (field.lines(), field.cursor());
    assert!(field.input(&Input::plain(Key::Char('x'))));
    assert_eq!(field.text(), "1x5");
    assert!(field.delete_char_before_cursor());
    assert_eq!((field.lines(), field.cursor()), before);
}

#[test]
fn replace_all_puts_the_text_in_place_of_everything() {
    let mut field = field_with("12345");
    field.input(&Input::plain(Key::Left));
    field.input(&Input::plain(Key::Left));
    field.replace_all("0.5");
    assert_eq!(field.lines(), vec!["0.5".to_string()]);
    assert_eq!(field.cursor(), (0, 3));
    assert_eq!(field.selection_range(), None);
    assert!(field.is_active());
}

#[test]
fn replace_all_clears_a_field_of_several_lines() {
    let mut field = field_with("1");
    field.input(&Input::plain(Key::Char('\n')));
    type_text(&mut field, "2");
    field.input(&Input::plain(Key::Up));
    field.replace_all("inf");
    assert_eq!(field.lines(), vec!["inf".to_string()]);
    assert_eq!(field.cursor(), (0, 3));
}

#[test]
fn replace_all_by_nothing_leaves_an_empty_field() {
    let mut field = field_with("12");
    field.replace_all("");
    assert_eq!(field.lines(), vec![String::new()]);
    assert_eq!(field.cursor(), (0, 0));
    assert_eq!(field.visual(), Visual::Active);
}

#[test]
fn replace_all_splits_the_text_at_line_feeds() {
    let mut field = Field::new(false);
    field.replace_all("ab\ncd\r\n\nef\r");
    assert_eq!(
        field.lines(),
        vec!["ab".to_string(), "cd".to_string(), String::new(), "ef".to_string()]
    );
    assert_eq!(field.cursor(), (3, 2));
    field.replace_all("x\n");
    assert_eq!(field.lines(), vec!["x".to_string(), String::new()]);
    assert_eq!(field.cursor(), (1, 0));
    field.replace_all("\r\r");
    assert_eq!(field.lines(), vec!["\r".to_string()]);
    assert_eq!(field.cursor(), (0, 1));
}

#[test]
fn replace_all_twice_is_replace_all_once() {
    let mut once = field_with("7");
    once.replace_all("-0.25");
    let mut twice = field_with("123");
    twice.replace_all("-0.25");
    twice.replace_all("-0.25");
    assert_eq!(once.lines(), twice.lines());
    assert_eq!(once.cursor(), twice.cursor());
}

#[test]
fn is_valid_goes_by_the_text() {
    assert!(field_with("150").is_valid());
    assert!(field_with("1.5e3").is_valid());
    assert!(!field_with("1.5e").is_valid());
    assert!(!field_with("abc").is_valid());
    let mut two = field_with("1");
    two.input(&Input::plain(Key::Char('\n')));
    assert!(!two.is_valid());
}

#[test]
fn text_counts_characters_not_bytes() {
    let mut field = field_with("é٣");
    assert_eq!(field.cursor(), (0, 2));
    assert!(field.delete_char_before_cursor());
    assert_eq!(field.text(), "é");
}

#[test]
fn insert_char_puts_the_character_in_at_the_cursor() {
    let mut field = field_with("13");
    field.input(&Input::plain(Key::Left));
    assert!(field.insert_char('2'));
    assert_eq!(field.lines(), vec!["123".to_string()]);
    assert_eq!(field.cursor(), (0, 2));
    assert!(field.insert_char('x'));
    assert_eq!(field.text(), "12x3");
}

#[test]
fn insert_char_breaks_the_line_at_a_line_feed_or_a_carriage_return() {
    let mut field = field_with("1234");
    field.input(&Input::plain(Key::Left));
    assert!(field.insert_char('\n'));
    assert_eq!(field.lines(), vec!["123".to_string(), "4".to_string()]);
    assert_eq!(field.cursor(), (1, 0));
    field.input(&Input::plain(Key::Up));
    field.input(&Input::plain(Key::Right));
    assert!(field.insert_char('\r'));
    assert_eq!(field.lines(), vec!["1".to_string(), "23".to_string(), "4".to_string()]);
    assert_eq!(field.cursor(), (1, 0));
    assert!(field.delete_char_before_cursor());
    assert_eq!(field.lines(), vec!["123".to_string(), "4".to_string()]);
    assert_eq!(field.cursor(), (0, 1));
}

#[test]
fn insert_char_replaces_the_selection() {
    let mut field = field_with("1234");
    field.input(&input(Key::Home, false, false, true));
    assert!(field.insert_char('7'));
    assert_eq!(field.text(), "7");
    assert_eq!(field.cursor(), (0, 1));
    assert_eq!(field.selection_range(), None);
    type_text(&mut field, "89");
    field.input(&input(Key::Left, false, false, true));
    assert!(field.insert_char('\n'));
    assert_eq!(field.lines(), vec!["78".to_string(), String::new()]);
    assert_eq!(field.cursor(), (1, 0));
}

fn three_lines() -> Field {
    let mut field = Field::new(true);
    field.replace_all("abcd\nef\nghi");
    assert_eq!(field.cursor(), (2, 3));
    field
}

#[test]
fn move_cursor_never_changes_the_text() {
    let mut field = three_lines();
    let moves = [
        Direction::Forward,
        Direction::Back,
        Direction::Up,
        Direction::Down,
        Direction::Head,
        Direction::End,
        Direction::Top,
        Direction::Bottom,
    ];
    for direction in moves {
        assert!(!field.move_cursor(direction));
        assert_eq!(field.text(), "abcd\nef\nghi");
        assert_eq!(field.selection_range(), None);
    }
}

#[test]
fn move_cursor_back_and_forward_go_over_the_ends_of_lines() {
    let mut field = three_lines();
    field.move_cursor(Direction::Forward);
    assert_eq!(field.cursor(), (2, 3));
    field.move_cursor(Direction::Back);
    assert_eq!(field.cursor(), (2, 2));
    field.move_cursor(Direction::Head);
    assert_eq!(field.cursor(), (2, 0));
    field.move_cursor(Direction::Head);
    assert_eq!(field.cursor(), (2, 0));
    field.move_cursor(Direction::Back);
    assert_eq!(field.cursor(), (1, 2));
    field.move_cursor(Direction::Forward);
    assert_eq!(field.cursor(), (2, 0));
    field.move_cursor(Direction::Top);
    field.move_cursor(Direction::Back);
    assert_eq!(field.cursor(), (0, 0));
    field.move_cursor(Direction::Forward);
    assert_eq!(field.cursor(), (0, 1));
}

#[test]
fn move_cursor_up_and_down_keep_the_column_as_far_as_the_line_reaches() {
    let mut field = three_lines();
    field.move_cursor(Direction::Down);
    assert_eq!(field.cursor(), (2, 3));
    field.move_cursor(Direction::Up);
    assert_eq!(field.cursor(), (1, 2));
    field.move_cursor(Direction::Up);
    assert_eq!(field.cursor(), (0, 2));
    field.move_cursor(Direction::Up);
    assert_eq!(field.cursor(), (0, 2));
    field.move_cursor(Direction::End);
    assert_eq!(field.cursor(), (0, 4));
    field.move_cursor(Direction::End);
    assert_eq!(field.cursor(), (0, 4));
    field.move_cursor(Direction::Down);
    assert_eq!(field.cursor(), (1, 2));
    field.move_cursor(Direction::Down);
    assert_eq!(field.cursor(), (2, 2));
}

#[test]
fn move_cursor_top_and_bottom_keep_the_column_as_far_as_the_line_reaches() {
    let mut field = three_lines();
    field.move_cursor(Direction::Top);
    assert_eq!(field.cursor(), (0, 3));
    field.move_cursor(Direction::End);
    field.move_cursor(Direction::Bottom);
    assert_eq!(field.cursor(), (2, 3));
    field.move_cursor(Direction::Up);
    field.move_cursor(Direction::Head);
    field.move_cursor(Direction::Top);
    assert_eq!(field.cursor(), (0, 0));
    field.move_cursor(Direction::Bottom);
    assert_eq!(field.cursor(), (2, 0));
}

#[test]
fn move_cursor_goes_on_with_a_selection() {
    let mut field = three_lines();
    field.input(&input(Key::Left, false, false, true));
    assert_eq!(field.selection_range(), Some(((2, 2), (2, 3))));
    assert!(!field.move_cursor(Direction::Up));
    assert_eq!(field.cursor(), (1, 2));
    assert_eq!(field.selection_range(), Some(((1, 2), (2, 3))));
    assert!(!field.move_cursor(Direction::Bottom));
    assert!(!field.move_cursor(Direction::End));
    assert_eq!(field.selection_range(), Some(((2, 3), (2, 3))));
    assert!(!field.move_cursor(Direction::Down));
    assert_eq!(field.selection_range(), Some(((2, 3), (2, 3))));
}

#[test]
fn scrolling_leaves_the_text() {
    let mut field = field_with("1234");
    for key in [Key::PageDown, Key::PageUp, Key::MouseScrollDown, Key::MouseScrollUp] {
        assert!(!field.input(&Input::plain(key)));
        assert_eq!(field.lines(), vec!["1234".to_string()]);
        assert_eq!(field.selection_range(), None);
    }
}

#[test]
fn keys_that_the_text_area_does_not_know_do_nothing() {
    let mut field = field_with("1234");
    for key in [Key::Null, Key::F(5), Key::Esc] {
        assert!(!field.input(&Input::plain(key)));
        assert_eq!(field.lines(), vec!["1234".to_string()]);
        assert_eq!(field.cursor(), (0, 4));
    }
}

#[test]
fn a_cut_text_can_be_pasted() {
    let mut field = field_with("1234");
    field.input(&input(Key::Left, false, false, true));
    field.input(&input(Key::Left, false, false, true));
    assert!(field.input(&Input::plain(Key::Cut)));
    assert_eq!(field.text(), "12");
    assert!(field.input(&Input::plain(Key::Home)) == false);
    assert!(field.input(&Input::plain(Key::Paste)));
    assert_eq!(field.text(), "3412");
    assert!(field.input(&input(Key::Char('u'), true, false, false)));
    assert_eq!(field.text(), "12");
}
