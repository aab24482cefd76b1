//! What the display is asked to do: texts at fixed places, and a running
//! text whose cursor wraps at the right edge and starts over on a cleared
//! screen at the bottom.

use crate::text::TextBuffer;
use embedded_graphics::mono_font::ascii::FONT_6X12;
use vstd::prelude::*;

verus! {

/// Width of the screen in pixels.
pub const SCREEN_WIDTH: i32 = 320;

/// Height of the screen in pixels.
pub const SCREEN_HEIGHT: i32 = 240;

/// Pixels from one character of the running text to the next.
pub const ADVANCE: i32 = 6;

/// Pixels from one line of the running text to the next.
pub const LINE_HEIGHT: i32 = 12;

/// A place on the screen, in pixels from its top left corner.
#[derive(Clone, Copy, Debug, PartialEq, Eq, Structural)]
pub struct Position {
    pub x: i32,
    pub y: i32,
}

/// One request to the display: a text, and where to draw it.
pub struct Submission {
    pub text: TextBuffer,
    pub position: Position,
}

/// What the display has to do for one character of the running text.
#[derive(Clone, Copy, Debug, PartialEq, Eq, Structural)]
pub struct Step {
    /// The screen is full: wipe it before anything is drawn.
    pub clear: bool,
    /// Where to draw the character; nothing is drawn for a line break.
    pub draw: Option<Position>,
}

/// A rectangle on the screen, given by two opposite corners.
#[derive(Clone, Copy, Debug, PartialEq, Eq, Structural)]
pub struct Area {
    pub top_left: Position,
    pub bottom_right: Position,
}

/// The cursor of the running text.
pub struct Terminal {
    cursor: Position,
}

/// The cursor once a line break or a full line has been taken care of.
pub open spec fn wrapped(cursor: Position, c: char) -> Position {
    if cursor.x >= SCREEN_WIDTH || c == '\n' {
        Position { x: 0, y: (cursor.y + LINE_HEIGHT) as i32 }
    } else {
        cursor
    }
}

/// Whether the screen has to be wiped before `c` is written.
pub open spec fn clears(cursor: Position, c: char) -> bool {
    wrapped(cursor, c).y >= SCREEN_HEIGHT
}

/// Where `c` lands: on the wrapped cursor, or at the top left of a wiped
/// screen.
pub open spec fn landing(cursor: Position, c: char) -> Position {
    if clears(cursor, c) {
        Position { x: 0, y: 0 }
    } else {
        wrapped(cursor, c)
    }
}

/// The request to the display for `c`.
pub open spec fn step_for(cursor: Position, c: char) -> Step {
    Step {
        clear: clears(cursor, c),
        draw: if c == '\n' {
            None
        } else {
            Some(landing(cursor, c))
        },
    }
}

/// The cursor after `c`: past the character drawn, or where the line break
/// has put it.
pub open spec fn cursor_after(cursor: Position, c: char) -> Position {
    if c == '\n' {
        landing(cursor, c)
    } else {
        Position { x: (landing(cursor, c).x + ADVANCE) as i32, y: landing(cursor, c).y }
    }
}

/// The cursor after a whole text.
pub open spec fn cursor_after_text(cursor: Position, text: Seq<char>) -> Position
    decreases text.len(),
{
    if text.len() == 0 {
        cursor
    } else {
        cursor_after(cursor_after_text(cursor, text.drop_last()), text.last())
    }
}

/// The requests to the display for a whole text, one for each character.
pub open spec fn steps_for_text(cursor: Position, text: Seq<char>) -> Seq<Step> {
    Seq::new(text.len(), |i: int| step_for(cursor_after_text(cursor, text.take(i)), text[i]))
}

/// The characters that the first `count` bytes of a segment stand for, one
/// for each byte; all of them where `count` is more than the segment holds.
pub open spec fn segment_text(bytes: Seq<u8>, count: nat) -> Seq<char> {
    Seq::new(
        if count < bytes.len() {
            count
        } else {
            bytes.len()
        },
        |i: int| bytes[i] as char,
    )
}

/// The columns that a wipe of the screen blanks one after the other, left to
/// right: each one character wide and as high as the screen, the first at
/// the left edge and the last the one that still starts on the screen.
pub open spec fn wipe_columns() -> Seq<Area> {
    Seq::new(
        ((SCREEN_WIDTH + ADVANCE - 1) / (ADVANCE as int)) as nat,
        |i: int|
            Area {
                top_left: Position { x: (i * ADVANCE) as i32, y: 0 },
                bottom_right: Position { x: ((i + 1) * ADVANCE) as i32, y: SCREEN_HEIGHT },
            },
    )
}

/// A cursor that the running text can reach: on a line that starts on the
/// screen, and at most one character past the right edge.
pub open spec fn on_screen(cursor: Position) -> bool {
    &&& 0 <= cursor.x < SCREEN_WIDTH + ADVANCE
    &&& 0 <= cursor.y < SCREEN_HEIGHT
}

/// `embedded_graphics::mono_font::ascii::FONT_6X12`: the width and height of
/// a character of that font and the spacing between two, in pixels.
#[verifier::external_body]
fn font_metrics() -> (metrics: (u32, u32, u32))
    ensures
        metrics == (6u32, 12u32, 0u32),
{
    (FONT_6X12.character_size.width, FONT_6X12.character_size.height, FONT_6X12.character_spacing)
}

impl Terminal {
    /// Every terminal's cursor is one that the running text can reach.
    #[verifier::type_invariant]
    spec fn cursor_on_screen(self) -> bool {
        on_screen(self.cursor)
    }

    /// Where the next character goes, unless the line is full.
    pub closed spec fn cursor(self) -> Position {
        self.cursor
    }

    /// A terminal on a cleared screen, its cursor on the first line.
    pub fn new() -> (terminal: Terminal)
        ensures
            terminal.cursor() == (Position { x: 0, y: 8 }),
    {
        Terminal { cursor: Position { x: 0, y: 8 } }
    }

    /// The cursor as it stands.
    pub fn position(&self) -> (cursor: Position)
        ensures
            cursor == self.cursor(),
            on_screen(cursor),
    {
        proof {
            use_type_invariant(self);
        }
        self.cursor
    }

    /// The columns to blank, in this order, when the screen is wiped.
    pub fn animate_clear() -> (columns: Vec<Area>)
        ensures
            columns@ == wipe_columns(),
    {
        let (width, _height, _spacing) = font_metrics();
        let mut columns: Vec<Area> = Vec::new();
        let mut x: i32 = 0;
        while x < SCREEN_WIDTH
            invariant
                width == 6,
                0 <= x < SCREEN_WIDTH + ADVANCE,
                x == columns@.len() * ADVANCE,
                columns@ == wipe_columns().take(columns@.len() as int),
            decreases SCREEN_WIDTH + ADVANCE - x,
        {
            columns.push(
                Area {
                    top_left: Position { x, y: 0 },
                    bottom_right: Position { x: x + width as i32, y: SCREEN_HEIGHT },
                },
            );
            x = x + width as i32;
        }
        columns
    }

    /// Moves the cursor for one character and says what the display has to
    /// do for it.
    pub fn write_character(&mut self, c: char) -> (step: Step)
        ensures
            step == step_for(old(self).cursor(), c),
            final(self).cursor() == cursor_after(old(self).cursor(), c),
    {
        proof {
            use_type_invariant(&*self);
        }
        let (width, height, spacing) = font_metrics();
        let mut cursor = self.cursor;
        let mut clear = false;
        if cursor.x >= SCREEN_WIDTH || c == '\n' {
            cursor = Position { x: 0, y: cursor.y + height as i32 };
        }
        if cursor.y >= SCREEN_HEIGHT {
            clear = true;
            cursor = Position { x: 0, y: 0 };
        }
        let mut draw = None;
        if c != '\n' {
            draw = Some(cursor);
            cursor.x = cursor.x + (width + spacing) as i32;
        }
        self.cursor = cursor;
        Step { clear, draw }
    }

    /// Moves the cursor over a whole text and says what the display has to do
    /// for each of its characters, first to last.
    pub fn write_str(&mut self, str: &str) -> (steps: Vec<Step>)
        ensures
            steps@ == steps_for_text(old(self).cursor(), str@),
            final(self).cursor() == cursor_after_text(old(self).cursor(), str@),
    {
        let ghost start = self.cursor();
        let mut steps: Vec<Step> = Vec::new();
        for character in it: str.chars()
            invariant
                it.seq() == str@,
                self.cursor() == cursor_after_text(start, str@.take(it.index())),
                steps@ == steps_for_text(start, str@.take(it.index())),
        {
            proof {
                let done = str@.take(it.index());
                let next = str@.take(it.index() + 1);
                assert forall|i: int| 0 <= i <= done.len() implies #[trigger] next.take(i)
                    == str@.take(i) by {}
                assert forall|i: int| 0 <= i <= done.len() implies #[trigger] done.take(i)
                    == str@.take(i) by {}
            }
            let step = self.write_character(character);
            steps.push(step);
        }
        proof {
            assert(str@.take(str@.len() as int) == str@);
        }
        steps
    }

    /// Moves the cursor over the first `count` bytes of a segment, each byte
    /// taken as one character, and says what the display has to do for each.
    pub fn write(&mut self, segment: ([u8; 32], usize)) -> (steps: Vec<Step>)
        ensures
            steps@ == steps_for_text(old(self).cursor(), segment_text(segment.0@, segment.1 as nat)),
            final(self).cursor() == cursor_after_text(
                old(self).cursor(),
                segment_text(segment.0@, segment.1 as nat),
            ),
    {
        let ghost start = self.cursor();
        let ghost text = segment_text(segment.0@, segment.1 as nat);
        let (buf, count) = segment;
        let mut steps: Vec<Step> = Vec::new();
        let mut i: usize = 0;
        while i < 32 && i < count
            invariant
                i <= 32,
                i <= count,
                buf == segment.0,
                count == segment.1,
                text == segment_text(segment.0@, segment.1 as nat),
                self.cursor() == cursor_after_text(start, text.take(i as int)),
                steps@ == steps_for_text(start, text.take(i as int)),
            decreases 32 - i,
        {
            proof {
                let done = text.take(i as int);
                let next = text.take(i + 1);
                assert forall|k: int| 0 <= k <= done.len() implies #[trigger] next.take(k)
                    == text.take(k) by {}
                assert forall|k: int| 0 <= k <= done.len() implies #[trigger] done.take(k)
                    == text.take(k) by {}
            }
            let step = self.write_character(buf[i] as char);
            steps.push(step);
            i = i + 1;
        }
        proof {
            assert(text.take(text.len() as int) == text);
        }
        steps
    }
}

/// A character is never drawn off the screen: it lands where a whole
/// character still starts within the width and the height.
pub proof fn law_characters_land_on_the_screen(cursor: Position, c: char)
    requires
        on_screen(cursor),
    ensures
        step_for(cursor, c).draw matches Some(place) ==> 0 <= place.x < SCREEN_WIDTH && 0
            <= place.y < SCREEN_HEIGHT,
        on_screen(cursor_after(cursor, c)),
{
}

/// Whatever is written, a cursor on the screen stays on the screen.
pub proof fn law_cursor_stays_on_screen(cursor: Position, text: Seq<char>)
    requires
        on_screen(cursor),
    ensures
        on_screen(cursor_after_text(cursor, text)),
    decreases text.len(),
{
    if text.len() > 0 {
        law_cursor_stays_on_screen(cursor, text.drop_last());
    }
}

} // verus!
