use radio_screen::display::{
    CharacterDisplay, DisplayOp, History, RecordingDisplay, TextDisplay, WrappingTextDisplay,
};
use radio_screen::geometry::{CursorPosition, EntireScreen, Line, Lines, Segment};

struct Counting {
    clears: usize,
    moves: usize,
    characters: String,
}

impl CharacterDisplay for Counting {
    // Only contracts speak of the history; nothing calls it.
    fn history(&self) -> History {
        unreachable!()
    }

    fn clear(&mut self) {
        self.clears += 1;
    }

    fn move_cursor(&mut self, _position: CursorPosition) {
        self.moves += 1;
    }

    fn write_char(&mut self, c: char) {
        self.characters.push(c);
    }
}

fn expected(parts: &[(Option<CursorPosition>, &str)]) -> Vec<DisplayOp> {
    let mut ops = Vec::new();
    for (position, text) in parts {
        if let Some(position) = position {
            ops.push(DisplayOp::MoveCursor(*position));
        }
        for c in text.chars() {
            ops.push(DisplayOp::WriteChar(c));
        }
    }
    ops
}

fn recorded(segment: Segment, text: &str) -> Vec<DisplayOp> {
    let mut display = WrappingTextDisplay::new(RecordingDisplay::new());
    display.write_to(segment, text);
    display.character_display().ops().clone()
}

#[test]
fn test_clear() {
    let mut display = WrappingTextDisplay::new(RecordingDisplay::new());
    display.clear();
    assert_eq!(display.character_display().ops(), &vec![DisplayOp::Clear]);
}

#[test]
fn test_short_string() {
    let cursor_position = CursorPosition { row: 1, column: 2 };
    let text = "abc";
    let segment = Segment { position: cursor_position, length: 3 };
    assert_eq!(recorded(segment, text), expected(&[(Some(cursor_position), text)]));
}

#[test]
fn test_wrapping_string() {
    let first_line_cursor_position = CursorPosition { row: 1, column: 18 };
    let second_line_cursor_position = CursorPosition { row: 2, column: 0 };
    let first_line = "ab";
    let second_line = "cd";
    let segment = Segment { position: first_line_cursor_position, length: 4 };
    assert_eq!(
        recorded(segment, &format!("{}{}", first_line, second_line)),
        expected(&[
            (Some(first_line_cursor_position), first_line),
            (Some(second_line_cursor_position), second_line),
        ])
    );
}

#[test]
fn test_write_to_end_of_line() {
    let cursor_position = CursorPosition { row: 1, column: 18 };
    let text = "ab";
    let segment = Segment { position: cursor_position, length: 2 };
    let ops = recorded(segment, text);
    assert_eq!(ops, expected(&[(Some(cursor_position), text)]));
    let moves = ops.iter().filter(|op| matches!(op, DisplayOp::MoveCursor(_))).count();
    assert_eq!(moves, 1);
}

#[test]
fn multiple_writes_without_wrapping() {
    let text_to_write = [
        (CursorPosition { row: 0, column: 15 }, "abcd"),
        (CursorPosition { row: 1, column: 14 }, "efghi"),
        (CursorPosition { row: 2, column: 13 }, "jklmno"),
    ];
    let mut display = WrappingTextDisplay::new(RecordingDisplay::new());
    for &(cursor_position, text) in &text_to_write {
        display.write_to(
            Segment { position: cursor_position, length: text.chars().count().try_into().unwrap() },
            text,
        );
    }
    assert_eq!(
        display.character_display().ops(),
        &expected(&[
            (Some(text_to_write[0].0), text_to_write[0].1),
            (Some(text_to_write[1].0), text_to_write[1].1),
            (Some(text_to_write[2].0), text_to_write[2].1),
        ])
    );
}

#[test]
fn short_text_is_padded_with_spaces() {
    let position = CursorPosition { row: 0, column: 0 };
    assert_eq!(
        recorded(Segment { position, length: 5 }, "abc"),
        expected(&[(Some(position), "abc  ")])
    );
}

#[test]
fn empty_text_blanks_the_segment() {
    let position = CursorPosition { row: 3, column: 4 };
    assert_eq!(
        recorded(Segment { position, length: 3 }, ""),
        expected(&[(Some(position), "   ")])
    );
}

#[test]
fn long_text_is_cut_at_the_end_of_the_segment() {
    let position = CursorPosition { row: 2, column: 3 };
    assert_eq!(
        recorded(Segment { position, length: 4 }, "abcdefgh"),
        expected(&[(Some(position), "abcd")])
    );
}

#[test]
fn empty_segment_takes_no_character() {
    let position = CursorPosition { row: 2, column: 3 };
    assert_eq!(recorded(Segment { position, length: 0 }, "abc"), expected(&[(Some(position), "")]));
}

#[test]
fn padding_wraps_to_the_next_row() {
    let position = CursorPosition { row: 0, column: 19 };
    assert_eq!(
        recorded(Segment { position, length: 3 }, "a"),
        expected(&[(Some(position), "a"), (Some(CursorPosition { row: 1, column: 0 }), "  ")])
    );
}

#[test]
fn text_that_overruns_a_full_row_asks_nothing_more() {
    let position = CursorPosition { row: 1, column: 18 };
    assert_eq!(
        recorded(Segment { position, length: 2 }, "abcdef"),
        expected(&[(Some(position), "ab")])
    );
}

#[test]
fn empty_segment_at_the_right_edge_asks_for_its_start_alone() {
    let position = CursorPosition { row: 1, column: 20 };
    assert_eq!(recorded(Segment { position, length: 0 }, "abc"), expected(&[(Some(position), "")]));
}

#[test]
fn segment_in_the_last_row_of_all_is_written() {
    let position = CursorPosition { row: 255, column: 17 };
    assert_eq!(
        recorded(Segment { position, length: 3 }, "abcd"),
        expected(&[(Some(position), "abc")])
    );
}

#[test]
fn segment_that_starts_at_the_right_edge_starts_on_the_next_row() {
    let position = CursorPosition { row: 0, column: 20 };
    assert_eq!(
        recorded(Segment { position, length: 2 }, "ab"),
        expected(&[(Some(position), ""), (Some(CursorPosition { row: 1, column: 0 }), "ab")])
    );
}

#[test]
fn entire_screen_is_written_row_by_row() {
    let text: String = "0123456789".repeat(8);
    let ops = recorded(Segment::from(EntireScreen), &text);
    assert_eq!(
        ops,
        expected(&[
            (Some(CursorPosition { row: 0, column: 0 }), &text[0..20]),
            (Some(CursorPosition { row: 1, column: 0 }), &text[20..40]),
            (Some(CursorPosition { row: 2, column: 0 }), &text[40..60]),
            (Some(CursorPosition { row: 3, column: 0 }), &text[60..80]),
        ])
    );
}

#[test]
fn text_with_wide_characters_is_counted_in_characters() {
    let position = CursorPosition { row: 0, column: 0 };
    assert_eq!(
        recorded(Segment { position, length: 4 }, "h\u{e9}llo"),
        expected(&[(Some(position), "h\u{e9}ll")])
    );
}

#[test]
fn writes_reach_a_device_of_the_caller() {
    let device = Counting { clears: 0, moves: 0, characters: String::new() };
    let mut display = WrappingTextDisplay::new(device);
    display.clear();
    display.write_to(Segment { position: CursorPosition { row: 0, column: 18 }, length: 4 }, "abc");
    assert_eq!(display.character_display().clears, 1);
    assert_eq!(display.character_display().moves, 2);
    assert_eq!(display.character_display().characters, "abc ");
}

#[test]
fn offset_from_the_start_of_a_row() {
    let start = CursorPosition { row: 1, column: 0 };
    assert_eq!(start.offset(0), CursorPosition { row: 1, column: 0 });
    assert_eq!(start.offset(19), CursorPosition { row: 1, column: 19 });
    assert_eq!(start.offset(20), CursorPosition { row: 2, column: 0 });
    assert_eq!(start.offset(45), CursorPosition { row: 3, column: 5 });
    assert_eq!(start.offset(80), CursorPosition { row: 5, column: 0 });
}

#[test]
fn offset_from_within_a_row() {
    let start = CursorPosition { row: 0, column: 13 };
    assert_eq!(start.offset(6), CursorPosition { row: 0, column: 19 });
    assert_eq!(start.offset(7), CursorPosition { row: 1, column: 0 });
    assert_eq!(start.offset(67), CursorPosition { row: 4, column: 0 });
}

#[test]
fn split_gives_head_and_tail() {
    let segment = Segment { position: CursorPosition { row: 0, column: 15 }, length: 12 };
    let (head, tail) = segment.split(8);
    assert_eq!(head, Segment { position: CursorPosition { row: 0, column: 15 }, length: 8 });
    assert_eq!(tail, Segment { position: CursorPosition { row: 1, column: 3 }, length: 4 });
    assert_eq!(head.length + tail.length, segment.length);
}

#[test]
fn split_at_the_ends() {
    let segment = Segment { position: CursorPosition { row: 2, column: 4 }, length: 6 };
    let (head, tail) = segment.split(0);
    assert_eq!(head, Segment { position: segment.position, length: 0 });
    assert_eq!(tail, segment);
    let (head, tail) = segment.split(6);
    assert_eq!(head, segment);
    assert_eq!(tail, Segment { position: CursorPosition { row: 2, column: 10 }, length: 0 });
}

#[test]
fn head_and_tail_are_written_like_the_whole() {
    let segment = Segment { position: CursorPosition { row: 0, column: 15 }, length: 12 };
    let (head, tail) = segment.split(8);
    let whole = recorded(segment, "abcdefghijkl");
    let mut display = WrappingTextDisplay::new(RecordingDisplay::new());
    display.write_to(head, "abcdefgh");
    display.write_to(tail, "ijkl");
    let characters = |ops: &Vec<DisplayOp>| -> String {
        ops.iter()
            .filter_map(|op| match op {
                DisplayOp::WriteChar(c) => Some(*c),
                _ => None,
            })
            .collect()
    };
    assert_eq!(characters(&whole), characters(display.character_display().ops()));
}

#[test]
fn line_split() {
    let (head, tail) = Line(3).split(15);
    assert_eq!(head, Segment { position: CursorPosition { row: 3, column: 0 }, length: 15 });
    assert_eq!(tail, Segment { position: CursorPosition { row: 3, column: 15 }, length: 5 });
}

#[test]
fn regions_become_segments() {
    assert_eq!(
        Segment::from(Line(2)),
        Segment { position: CursorPosition { row: 2, column: 0 }, length: 20 }
    );
    assert_eq!(
        Lines(2, 3).segment(),
        Segment { position: CursorPosition { row: 2, column: 0 }, length: 40 }
    );
    assert_eq!(
        Lines(1, 1).segment(),
        Segment { position: CursorPosition { row: 1, column: 0 }, length: 20 }
    );
    assert_eq!(
        Segment::from(EntireScreen),
        Segment { position: CursorPosition { row: 0, column: 0 }, length: 80 }
    );
}
