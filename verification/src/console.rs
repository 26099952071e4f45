//! What the diagnostic console computes: pixel colours and the contents of
//! the text screen. Putting them into video memory is the caller's part.
use vstd::prelude::*;
use vstd::std_specs::convert::IntoSpec;

verus! {

/// The named colours.
#[derive(Clone, Copy, PartialEq, Eq, Structural, Debug)]
pub enum Colors {
    Red,
    Green,
    White,
    Black,
}

/// A colour as red, green and blue.
#[derive(Clone, Copy, PartialEq, Eq, Structural, Debug)]
pub struct Pixel {
    pub r: u8,
    pub g: u8,
    pub b: u8,
}

/// The 24-bit word of a colour: red in bits 16 to 23, green in bits 8 to 15,
/// blue in bits 0 to 7.
pub open spec fn pixel_bits(r: u8, g: u8, b: u8) -> u32 {
    ((r as u32) << 16) | ((g as u32) << 8) | (b as u32)
}

/// The pixel of a named colour.
pub open spec fn color_pixel(c: Colors) -> Pixel {
    match c {
        Colors::Red => Pixel { r: 255, g: 0, b: 0 },
        Colors::Green => Pixel { r: 0, g: 255, b: 0 },
        Colors::White => Pixel { r: 255, g: 255, b: 255 },
        Colors::Black => Pixel { r: 0, g: 0, b: 0 },
    }
}

impl Pixel {
    /// The colour with the given parts.
    pub fn new(r: u8, g: u8, b: u8) -> (pixel: Self)
        ensures
            pixel == (Pixel { r, g, b }),
    {
        Self { r, g, b }
    }

    /// Takes over the colour that `to` converts into.
    pub fn set<T: Into<Pixel>>(&mut self, to: T)
        ensures
            <T as IntoSpec<Pixel>>::obeys_into_spec() ==> *final(self) == <T as IntoSpec<Pixel>>::into_spec(to),
    {
        let to: Pixel = to.into();
        self.r = to.r;
        self.g = to.g;
        self.b = to.b;
    }

    /// Makes the pixel white.
    pub fn reset(&mut self)
        ensures
            *final(self) == (Pixel { r: 255, g: 255, b: 255 }),
    {
        self.r = 255;
        self.g = 255;
        self.b = 255;
    }

    /// The colour as one word, as a 32-bit frame buffer takes it.
    pub fn as_bits(&self) -> (bits: u32)
        ensures
            bits == pixel_bits(self.r, self.g, self.b),
            bits <= 0x00FF_FFFF,
    {
        proof {
            lemma_pixel_bits(self.r, self.g, self.b);
        }
        ((self.r as u32) << 16) | ((self.g as u32) << 8) | (self.b as u32)
    }
}

/// A colour's word holds each part in its own byte, and nothing above them.
pub proof fn lemma_pixel_bits(r: u8, g: u8, b: u8)
    by (bit_vector)
    ensures
        pixel_bits(r, g, b) <= 0x00FF_FFFF,
        (pixel_bits(r, g, b) >> 16) & 0xFF == r,
        (pixel_bits(r, g, b) >> 8) & 0xFF == g,
        pixel_bits(r, g, b) & 0xFF == b,
{
}

impl Default for Pixel {
    /// Black.
    fn default() -> (pixel: Self)
        ensures
            pixel == (Pixel { r: 0, g: 0, b: 0 }),
    {
        Self { r: 0, g: 0, b: 0 }
    }
}

impl From<Colors> for Pixel {
    /// The pixel of a named colour.
    fn from(c: Colors) -> (pixel: Self) {
        match c {
            Colors::Red => Self::new(255, 0, 0),
            Colors::Green => Self::new(0, 255, 0),
            Colors::White => Self::new(255, 255, 255),
            Colors::Black => Self::new(0, 0, 0),
        }
    }
}

impl vstd::std_specs::convert::FromSpecImpl<Colors> for Pixel {
    open spec fn obeys_from_spec() -> bool {
        true
    }

    open spec fn from_spec(c: Colors) -> Pixel {
        color_pixel(c)
    }
}

/// The number of columns of the text screen.
pub const WIDTH: usize = 80;

/// The number of rows of the text screen.
pub const HEIGHT: usize = 25;

/// The byte that shows as an empty cell.
pub const BLANK: u8 = 0x20;

/// The byte that ends a line.
pub const LINE_FEED: u8 = 0x0A;

/// A text screen as rows of bytes, top row first.
pub type Screen = Seq<Seq<u8>>;

/// Whether a screen has the text screen's shape.
pub open spec fn screen_shaped(screen: Screen) -> bool {
    screen.len() == HEIGHT && forall|row: int| 0 <= row < HEIGHT ==> (#[trigger] screen[row]).len() == WIDTH
}

/// A row of blanks.
pub open spec fn blank_row() -> Seq<u8> {
    Seq::new(WIDTH as nat, |col: int| BLANK)
}

/// The screen after a line break: every row moves up by one, the top row is
/// lost and the bottom row is blank.
pub open spec fn scrolled(screen: Screen) -> Screen {
    Seq::new(
        HEIGHT as nat,
        |row: int|
            if row + 1 < HEIGHT {
                screen[row + 1]
            } else {
                blank_row()
            },
    )
}

/// The screen and the cursor of a writer.
pub struct ScreenState {
    pub screen: Screen,
    pub cursor: int,
}

/// The state after one byte was written. A line feed breaks the line. Any
/// other byte goes into the bottom row at the cursor, after a line break
/// where the row is full, and moves the cursor on by one.
pub open spec fn written_byte(state: ScreenState, byte: u8) -> ScreenState {
    if byte == LINE_FEED {
        ScreenState { screen: scrolled(state.screen), cursor: 0 }
    } else if state.cursor >= WIDTH {
        ScreenState {
            screen: scrolled(state.screen).update(
                HEIGHT - 1,
                scrolled(state.screen)[HEIGHT - 1].update(0, byte),
            ),
            cursor: 1,
        }
    } else {
        ScreenState {
            screen: state.screen.update(
                HEIGHT - 1,
                state.screen[HEIGHT - 1].update(state.cursor, byte),
            ),
            cursor: state.cursor + 1,
        }
    }
}

/// The state after the bytes were written, first byte first.
pub open spec fn written(state: ScreenState, bytes: Seq<u8>) -> ScreenState
    decreases bytes.len(),
{
    if bytes.len() == 0 {
        state
    } else {
        written_byte(written(state, bytes.drop_last()), bytes.last())
    }
}

/// A writer to the text screen. It writes into the bottom row and scrolls
/// the screen up at each line break.
pub struct VgaWriter {
    chars: [[u8; 80]; 25],
    cursor: usize,
}

impl View for VgaWriter {
    type V = ScreenState;

    closed spec fn view(&self) -> ScreenState {
        ScreenState {
            screen: Seq::new(HEIGHT as nat, |row: int| self.chars@[row]@),
            cursor: self.cursor as int,
        }
    }
}

impl VgaWriter {
    #[verifier::type_invariant]
    spec fn well_formed(&self) -> bool {
        self.cursor <= WIDTH
    }

    /// A writer on a screen with the given rows, with the cursor at the start
    /// of the bottom row.
    pub fn new(chars: [[u8; 80]; 25]) -> (writer: Self)
        ensures
            writer@.cursor == 0,
            screen_shaped(writer@.screen),
            forall|row: int| 0 <= row < HEIGHT ==> #[trigger] writer@.screen[row] == chars@[row]@,
    {
        Self { chars, cursor: 0 }
    }

    /// The column of the bottom row that the next byte goes to; `WIDTH` where
    /// the row is full.
    pub fn cursor(&self) -> (cursor: usize)
        ensures
            cursor == self@.cursor,
            cursor <= WIDTH,
            screen_shaped(self@.screen),
    {
        proof {
            use_type_invariant(self);
        }
        self.cursor
    }

    /// The byte in the given cell.
    pub fn char_at(&self, row: usize, col: usize) -> (byte: u8)
        requires
            row < HEIGHT,
            col < WIDTH,
        ensures
            byte == self@.screen[row as int][col as int],
    {
        let line: &[u8; 80] = &self.chars[row];
        line[col]
    }

    /// Writes one byte: a line feed breaks the line, any other byte goes into
    /// the bottom row at the cursor, after a line break where the row is full.
    pub fn write_byte(&mut self, byte: u8)
        ensures
            final(self)@ == written_byte(old(self)@, byte),
    {
        proof {
            use_type_invariant(&*self);
        }
        if byte == LINE_FEED {
            self.new_line();
        } else {
            if self.cursor >= WIDTH {
                self.new_line();
            }
            let row: usize = HEIGHT - 1;
            let col: usize = self.cursor;
            let ghost before = self@;
            let mut line: [u8; 80] = self.chars[row];
            line[col] = byte;
            self.chars[row] = line;
            self.cursor += 1;
            assert(self@.screen =~= before.screen.update(
                HEIGHT - 1,
                before.screen[HEIGHT - 1].update(before.cursor, byte),
            ));
        }
    }

    /// Breaks the line: every row moves up by one, the bottom row becomes
    /// blank and the cursor returns to its start.
    pub fn new_line(&mut self)
        ensures
            final(self)@.screen == scrolled(old(self)@.screen),
            final(self)@.cursor == 0,
    {
        proof {
            use_type_invariant(&*self);
        }
        let mut row: usize = 1;
        while row < HEIGHT
            invariant
                1 <= row <= HEIGHT,
                self.cursor == old(self).cursor,
                self.cursor <= WIDTH,
                forall|r: int| 0 <= r < row - 1 ==> #[trigger] self.chars@[r] == old(self).chars@[r + 1],
                forall|r: int| row - 1 <= r < HEIGHT ==> #[trigger] self.chars@[r] == old(self).chars@[r],
            decreases HEIGHT - row,
        {
            let line: [u8; 80] = self.chars[row];
            self.chars[row - 1] = line;
            row += 1;
        }
        let ghost moved = self@.screen;
        assert forall|r: int| 0 <= r < HEIGHT - 1 implies #[trigger] moved[r] == old(self)@.screen[r
            + 1] by {
            assert(self.chars@[r] == old(self).chars@[r + 1]);
        }
        self.clear_row(HEIGHT - 1);
        self.cursor = 0;
        assert(self@.screen =~= scrolled(old(self)@.screen));
    }

    /// Fills a row with blanks and keeps the other rows and the cursor.
    pub fn clear_row(&mut self, row: usize)
        requires
            row < HEIGHT,
        ensures
            final(self)@.screen == old(self)@.screen.update(row as int, blank_row()),
            final(self)@.cursor == old(self)@.cursor,
    {
        proof {
            use_type_invariant(&*self);
        }
        let mut line: [u8; 80] = self.chars[row];
        let mut col: usize = 0;
        while col < WIDTH
            invariant
                col <= WIDTH,
                forall|c: int| 0 <= c < col ==> #[trigger] line@[c] == BLANK,
            decreases WIDTH - col,
        {
            line[col] = BLANK;
            col += 1;
        }
        self.chars[row] = line;
        assert(line@ =~= blank_row());
        assert(self@.screen =~= old(self)@.screen.update(row as int, blank_row()));
    }

    /// Writes the bytes one after another, first byte first.
    pub fn write_bytes(&mut self, bytes: &[u8])
        ensures
            final(self)@ == written(old(self)@, bytes@),
    {
        let mut i: usize = 0;
        while i < bytes.len()
            invariant
                i <= bytes@.len(),
                self@ == written(old(self)@, bytes@.subrange(0, i as int)),
            decreases bytes@.len() - i,
        {
            let ghost done = bytes@.subrange(0, i as int);
            self.write_byte(bytes[i]);
            i += 1;
            proof {
                let now = bytes@.subrange(0, i as int);
                assert(now.drop_last() =~= done);
                assert(now.last() == bytes@[i - 1]);
            }
        }
        assert(bytes@.subrange(0, i as int) =~= bytes@);
    }
}

} // verus!
