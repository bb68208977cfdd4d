//! The character device, and the writer that lays text out on it.

use vstd::prelude::*;

use crate::geometry::{CursorPosition, GridCell, Segment};
use crate::SCREEN_WIDTH;

verus! {

/// One request made of a character device.
#[derive(Clone, Copy, Debug, PartialEq, Eq, Structural)]
pub enum DisplayOp {
    /// Blank the whole screen.
    Clear,
    /// Put the cursor on a cell.
    MoveCursor(CursorPosition),
    /// Show a character under the cursor and step the cursor one cell right.
    WriteChar(char),
}

/// The requests made of a character device, oldest first.
pub type History = Seq<DisplayOp>;

/// A device that shows characters on a grid of cells.
///
/// The device is known by what it has been asked to do: each method adds
/// exactly one request to its history and does nothing else that a caller
/// could observe.
pub trait CharacterDisplay {
    /// Every request made of the device so far. The history is spoken of in
    /// contracts only: nothing ever calls it when the program runs.
    spec fn history(&self) -> History;

    /// Clears the entire screen.
    fn clear(&mut self)
        ensures
            final(self).history() == old(self).history().push(DisplayOp::Clear),
    ;

    /// Moves the cursor to `position`.
    fn move_cursor(&mut self, position: CursorPosition)
        ensures
            final(self).history() == old(self).history().push(DisplayOp::MoveCursor(position)),
    ;

    /// Writes one character under the cursor and moves the cursor one place
    /// to the right.
    fn write_char(&mut self, c: char)
        ensures
            final(self).history() == old(self).history().push(DisplayOp::WriteChar(c)),
    ;
}

/// A device that shows nothing and keeps the list of what it was asked.
pub struct RecordingDisplay {
    ops: Vec<DisplayOp>,
}

impl RecordingDisplay {
    /// A device that has not been asked anything yet.
    pub fn new() -> (r: Self)
        ensures
            r.history() == Seq::<DisplayOp>::empty(),
    {
        RecordingDisplay { ops: Vec::new() }
    }

    /// The requests recorded so far, oldest first.
    pub fn ops(&self) -> (r: &Vec<DisplayOp>)
        ensures
            r@ == self.history(),
    {
        &self.ops
    }
}

impl CharacterDisplay for RecordingDisplay {
    closed spec fn history(&self) -> History {
        self.ops@
    }

    fn clear(&mut self) {
        self.ops.push(DisplayOp::Clear);
    }

    fn move_cursor(&mut self, position: CursorPosition) {
        self.ops.push(DisplayOp::MoveCursor(position));
    }

    fn write_char(&mut self, c: char) {
        self.ops.push(DisplayOp::WriteChar(c));
    }
}

/// One request made of a text display.
pub enum TextOp {
    /// Blank the whole screen.
    Clear,
    /// Fill `segment` with `text`, cut or padded to the segment's length.
    Write { segment: Segment, text: Seq<char> },
}

/// The requests made of a text display, oldest first.
pub type Writes = Seq<TextOp>;

/// A display that shows whole texts in segments of the screen.
pub trait TextDisplay {
    /// Every request made of the display so far. Like the history of a
    /// character device it is spoken of in contracts only.
    spec fn written(&self) -> Writes;

    /// Clears the entire screen.
    fn clear(&mut self)
        ensures
            final(self).written() == old(self).written().push(TextOp::Clear),
    ;

    /// Fills `segment` with `text`: what does not fit is left out, and what
    /// the text leaves free is blanked.
    fn write_to(&mut self, segment: Segment, text: &str)
        requires
            segment.writable(),
        ensures
            final(self).written() == old(self).written().push(
                TextOp::Write { segment, text: text@ },
            ),
    ;
}

impl Segment {
    /// The column in which the writer takes the segment to start: a column
    /// at or past the right edge stands for the start of the next row.
    pub open spec fn start_column(self) -> int {
        if self.position.column >= SCREEN_WIDTH {
            SCREEN_WIDTH as int
        } else {
            self.position.column as int
        }
    }

    /// The cell in which the writer puts the `k`-th character.
    pub open spec fn cell(self, k: int) -> GridCell {
        GridCell {
            row: self.position.row + (self.start_column() + k) / (SCREEN_WIDTH as int),
            column: (self.start_column() + k) % (SCREEN_WIDTH as int),
        }
    }

    /// Whether the `k`-th cell is the first of a row that the writer reaches
    /// by running off the end of the row before.
    pub open spec fn wraps_before(self, k: int) -> bool {
        (self.start_column() + k) % (SCREEN_WIDTH as int) == 0 && self.start_column() + k > 0
    }

    /// Whether every row that the writer has to address fits a `u8`: the
    /// row of the last cell does, if there is a cell at all.
    pub open spec fn writable(self) -> bool {
        self.length > 0 ==> self.position.row + (self.start_column() + self.length - 1) / (
        SCREEN_WIDTH as int) <= u8::MAX
    }
}

/// The character shown in the `k`-th cell of a segment that `text` is
/// written to: the `k`-th character of the text, or a space past its end.
pub open spec fn cell_char(text: Seq<char>, k: int) -> char {
    if 0 <= k < text.len() {
        text[k]
    } else {
        ' '
    }
}

/// What the writer asks of the device for the `k`-th cell of a segment: a
/// cursor move if the cell is reached by running off a row, then the
/// character.
pub open spec fn cell_ops(segment: Segment, text: Seq<char>, k: int) -> Seq<DisplayOp> {
    let write = seq![DisplayOp::WriteChar(cell_char(text, k))];
    if segment.wraps_before(k) {
        seq![DisplayOp::MoveCursor(segment.cell(k).cursor())] + write
    } else {
        write
    }
}

/// What the writer asks of the device for the first `count` cells.
pub open spec fn cells_ops(segment: Segment, text: Seq<char>, count: int) -> Seq<DisplayOp> {
    Seq::new(count as nat, |k: int| cell_ops(segment, text, k)).flatten()
}

/// Everything the writer asks of the device to show `text` in `segment`:
/// a cursor move to the segment's start, then cell after cell, and nothing
/// once the last cell is filled, however long the text is.
pub open spec fn write_ops(segment: Segment, text: Seq<char>) -> Seq<DisplayOp> {
    seq![DisplayOp::MoveCursor(segment.position)] + cells_ops(
        segment,
        text,
        segment.length as int,
    )
}

/// A character shown in a cell.
pub struct Stamp {
    pub cell: GridCell,
    pub c: char,
}

/// What a plain device makes of the requests it gets: where its cursor
/// stands, and the characters it has put into cells since it was last
/// cleared, oldest first.
pub struct Shown {
    pub cursor: GridCell,
    pub stamps: Seq<Stamp>,
}

/// What one request does to a plain device: a character goes where the
/// cursor stands and takes the cursor one column to the right, past the end
/// of the row if it comes to that; the device never changes row by itself.
pub open spec fn apply_op(shown: Shown, op: DisplayOp) -> Shown {
    match op {
        DisplayOp::Clear => Shown { cursor: shown.cursor, stamps: seq![] },
        DisplayOp::MoveCursor(position) => Shown { cursor: position@, stamps: shown.stamps },
        DisplayOp::WriteChar(c) => Shown {
            cursor: GridCell { row: shown.cursor.row, column: shown.cursor.column + 1 },
            stamps: shown.stamps.push(Stamp { cell: shown.cursor, c }),
        },
    }
}

/// What a run of requests does to a plain device.
pub open spec fn apply_ops(shown: Shown, ops: Seq<DisplayOp>) -> Shown
    decreases ops.len(),
{
    if ops.len() == 0 {
        shown
    } else {
        apply_op(apply_ops(shown, ops.drop_last()), ops.last())
    }
}

/// Two runs of requests, one after the other, do what the second does to
/// the outcome of the first.
pub proof fn lemma_apply_ops_concat(shown: Shown, first: Seq<DisplayOp>, second: Seq<DisplayOp>)
    ensures
        apply_ops(shown, first + second) == apply_ops(apply_ops(shown, first), second),
    decreases second.len(),
{
    if second.len() == 0 {
    } else {
        assert((first + second).drop_last() =~= first + second.drop_last());
        lemma_apply_ops_concat(shown, first, second.drop_last());
    }
}

/// A run of one request does what the request does.
proof fn lemma_apply_one(shown: Shown, op: DisplayOp)
    ensures
        apply_ops(shown, seq![op]) == apply_op(shown, op),
{
    reveal_with_fuel(apply_ops, 2);
}

/// What the requests for one cell do to a plain device whose cursor stands
/// where the cell before left it.
proof fn lemma_apply_cell_ops(shown: Shown, segment: Segment, text: Seq<char>, k: int)
    requires
        0 <= k < segment.length,
        segment.writable(),
        shown.cursor == cursor_after(segment, k)@,
    ensures
        apply_ops(shown, cell_ops(segment, text, k)) == (Shown {
            cursor: cursor_after(segment, k + 1)@,
            stamps: shown.stamps.push(Stamp { cell: segment.cell(k), c: cell_char(text, k) }),
        }),
{
    let write = DisplayOp::WriteChar(cell_char(text, k));
    if segment.wraps_before(k) {
        let go = DisplayOp::MoveCursor(segment.cell(k).cursor());
        lemma_apply_one(shown, go);
        lemma_apply_one(apply_op(shown, go), write);
        lemma_apply_ops_concat(shown, seq![go], seq![write]);
    } else {
        lemma_apply_one(shown, write);
    }
}

/// What the requests for the first `count` cells do to a plain device,
/// after the cursor move to the segment's start.
proof fn lemma_apply_cells_ops(shown: Shown, segment: Segment, text: Seq<char>, count: int)
    requires
        0 <= count <= segment.length,
        segment.writable(),
        shown.cursor == segment.position@,
    ensures
        apply_ops(shown, cells_ops(segment, text, count)) == (Shown {
            cursor: cursor_after(segment, count)@,
            stamps: shown.stamps + Seq::new(
                count as nat,
                |k: int| Stamp { cell: segment.cell(k), c: cell_char(text, k) },
            ),
        }),
    decreases count,
{
    if count == 0 {
        lemma_cells_ops_step(segment, text, 0);
    } else {
        lemma_apply_cells_ops(shown, segment, text, count - 1);
        lemma_cells_ops_step(segment, text, count - 1);
        let before = apply_ops(shown, cells_ops(segment, text, count - 1));
        lemma_apply_ops_concat(
            shown,
            cells_ops(segment, text, count - 1),
            cell_ops(segment, text, count - 1),
        );
        lemma_apply_cell_ops(before, segment, text, count - 1);
        assert(before.stamps.push(
            Stamp { cell: segment.cell(count - 1), c: cell_char(text, count - 1) },
        ) =~= shown.stamps + Seq::new(
            count as nat,
            |k: int| Stamp { cell: segment.cell(k), c: cell_char(text, k) },
        ));
    }
}

/// Writing a text to a segment puts one character into each cell of the
/// segment, in order, and into no other cell: the characters of the text as
/// far as the segment has room for them, then spaces. Each character is put
/// where the cursor was moved to or where the character before left it in
/// the same row, so that nothing depends on what the device does at the end
/// of a row.
pub proof fn lemma_write_fills_segment(shown: Shown, segment: Segment, text: Seq<char>)
    requires
        segment.writable(),
    ensures
        apply_ops(shown, write_ops(segment, text)).stamps == shown.stamps + Seq::new(
            segment.length as nat,
            |k: int| Stamp { cell: segment.cell(k), c: cell_char(text, k) },
        ),
        forall|k: int|
            0 <= k < segment.length ==> 0 <= (#[trigger] segment.cell(k)).column < SCREEN_WIDTH,
        segment.position.column <= SCREEN_WIDTH ==> forall|k: int|
            0 <= k ==> #[trigger] segment.cell(k) == segment.position.cell_at(k),
{
    let length = segment.length as int;
    let go = seq![DisplayOp::MoveCursor(segment.position)];
    let moved = apply_ops(shown, go);
    lemma_apply_one(shown, DisplayOp::MoveCursor(segment.position));
    lemma_apply_cells_ops(moved, segment, text, length);
    lemma_apply_ops_concat(shown, go, cells_ops(segment, text, length));
}

/// A text display on top of a character device. It wraps long texts by
/// moving the cursor itself whenever it has written to the end of a row.
pub struct WrappingTextDisplay<D: CharacterDisplay> {
    character_display: D,
    segment: Segment,
    written: Ghost<Seq<TextOp>>,
}

/// Where the writer's cursor stands once it has filled the first `count`
/// cells of a segment: one column right of the last cell filled, which may
/// be just past the end of the row.
spec fn cursor_after(segment: Segment, count: int) -> CursorPosition {
    if count <= 0 {
        segment.position
    } else {
        let last = segment.cell(count - 1);
        CursorPosition { row: last.row as u8, column: (last.column + 1) as u8 }
    }
}

/// The part of a segment that is still free after `fed` characters were
/// handed to the writer.
spec fn fed_rest(segment: Segment, fed: int) -> Segment {
    let length = segment.length as int;
    if fed <= 0 {
        segment
    } else if fed <= length {
        Segment { position: cursor_after(segment, fed), length: (length - fed) as u8 }
    } else {
        Segment { position: cursor_after(segment, length), length: 0 }
    }
}

/// What the writer has asked of the device after `fed` characters were
/// handed to it, the first cursor move included.
spec fn fed_ops(segment: Segment, text: Seq<char>, fed: int) -> Seq<DisplayOp> {
    let length = segment.length as int;
    let start = seq![DisplayOp::MoveCursor(segment.position)];
    if fed <= length {
        start + cells_ops(segment, text, fed)
    } else {
        start + cells_ops(segment, text, length)
    }
}

/// How one character changes the free part of a segment, and what is
/// asked of the device for it: nothing once the segment is full.
spec fn char_step(rest: Segment, c: char) -> (Segment, Seq<DisplayOp>) {
    let wrapped = rest.position.column >= SCREEN_WIDTH;
    let position = if wrapped {
        CursorPosition { row: (rest.position.row + 1) as u8, column: 0 }
    } else {
        rest.position
    };
    let moves = if wrapped {
        seq![DisplayOp::MoveCursor(position)]
    } else {
        seq![]
    };
    if rest.length > 0 {
        (
            Segment {
                position: CursorPosition {
                    row: position.row,
                    column: (position.column + 1) as u8,
                },
                length: (rest.length - 1) as u8,
            },
            moves.push(DisplayOp::WriteChar(c)),
        )
    } else {
        (rest, seq![])
    }
}

/// The cells of a segment are asked for one after the other.
proof fn lemma_cells_ops_step(segment: Segment, text: Seq<char>, count: int)
    requires
        0 <= count,
    ensures
        cells_ops(segment, text, count + 1) == cells_ops(segment, text, count) + cell_ops(
            segment,
            text,
            count,
        ),
        cells_ops(segment, text, 0) == Seq::<DisplayOp>::empty(),
{
    let f = |k: int| cell_ops(segment, text, k);
    let shorter = Seq::new(count as nat, f);
    let longer = Seq::new((count + 1) as nat, f);
    assert(longer =~= shorter.push(cell_ops(segment, text, count)));
    shorter.lemma_flatten_push(cell_ops(segment, text, count));
}

/// Handing the writer one more character takes it from one state of the
/// segment to the next.
proof fn lemma_feed(segment: Segment, text: Seq<char>, fed: int, c: char)
    requires
        0 <= fed,
        segment.writable(),
        fed < segment.length ==> c == cell_char(text, fed),
    ensures
        fed_rest(segment, fed).length > 0 && fed_rest(segment, fed).position.column
            >= SCREEN_WIDTH ==> fed_rest(segment, fed).position.row < u8::MAX,
        char_step(fed_rest(segment, fed), c).0 == fed_rest(segment, fed + 1),
        fed_ops(segment, text, fed) + char_step(fed_rest(segment, fed), c).1 == fed_ops(
            segment,
            text,
            fed + 1,
        ),
{
    let length = segment.length as int;
    if fed < length {
        lemma_cells_ops_step(segment, text, fed);
    } else {
    }
}

impl<D: CharacterDisplay> WrappingTextDisplay<D> {
    /// The device that the texts are written to.
    pub closed spec fn device(&self) -> D {
        self.character_display
    }

    /// A text display on `character_display`, with nothing written yet.
    pub fn new(character_display: D) -> (r: Self)
        ensures
            r.device() == character_display,
            r.written() == Seq::<TextOp>::empty(),
    {
        WrappingTextDisplay {
            character_display,
            segment: Segment {
                position: CursorPosition { row: 0, column: 0 },
                length: SCREEN_WIDTH * crate::SCREEN_HEIGHT,
            },
            written: Ghost(Seq::empty()),
        }
    }

    /// The device that the texts are written to.
    pub fn character_display(&self) -> (r: &D)
        ensures
            *r == self.device(),
    {
        &self.character_display
    }

    /// Puts one character into the part of the segment that is still free:
    /// at the end of a row the cursor moves to the next row first. Once the
    /// segment is full the character is dropped, and nothing is asked of the
    /// device.
    fn write_char(&mut self, c: char)
        requires
            old(self).segment.length > 0 && old(self).segment.position.column >= SCREEN_WIDTH
                ==> old(self).segment.position.row < u8::MAX,
        ensures
            final(self).segment == char_step(old(self).segment, c).0,
            final(self).character_display.history() == old(self).character_display.history()
                + char_step(old(self).segment, c).1,
            final(self).written == old(self).written,
    {
        if self.segment.length > 0 {
            if self.segment.position.column >= SCREEN_WIDTH {
                self.segment.position.row += 1;
                self.segment.position.column = 0;
                self.character_display.move_cursor(self.segment.position);
            }
            self.character_display.write_char(c);
            self.segment.position.column += 1;
            self.segment.length -= 1;
        }
    }
}

impl<D: CharacterDisplay> TextDisplay for WrappingTextDisplay<D> {
    closed spec fn written(&self) -> Writes {
        self.written@
    }

    fn clear(&mut self)
        ensures
            final(self).device().history() == old(self).device().history().push(
                DisplayOp::Clear,
            ),
    {
        self.character_display.clear();
        self.written = Ghost(self.written@.push(TextOp::Clear));
    }

    fn write_to(&mut self, segment: Segment, text: &str)
        ensures
            final(self).device().history() == old(self).device().history() + write_ops(
                segment,
                text@,
            ),
    {
        let ghost before = self.character_display.history();
        let ghost written = self.written@;
        self.segment = segment;
        self.character_display.move_cursor(self.segment.position);
        proof {
            lemma_cells_ops_step(segment, text@, 0);
        }
        for c in it: text.chars()
            invariant
                it.seq() == text@,
                segment.writable(),
                self.segment == fed_rest(segment, it.index() as int),
                self.character_display.history() == before + fed_ops(
                    segment,
                    text@,
                    it.index() as int,
                ),
                self.written@ == written,
        {
            proof {
                lemma_feed(segment, text@, it.index() as int, c);
            }
            self.write_char(c);
        }
        let ghost mut fed: int = text@.len() as int;
        while self.segment.length > 0
            invariant
                segment.writable(),
                text@.len() <= fed,
                fed == text@.len() || fed <= segment.length,
                self.segment == fed_rest(segment, fed),
                self.character_display.history() == before + fed_ops(segment, text@, fed),
                self.written@ == written,
            decreases self.segment.length,
        {
            proof {
                lemma_feed(segment, text@, fed, ' ');
            }
            self.write_char(' ');
            proof {
                fed = fed + 1;
            }
        }
        self.written = Ghost(self.written@.push(TextOp::Write { segment, text: text@ }));
    }
}

} // verus!
