//! The text-mode screen: 25 rows of 80 character cells, written at the
//! bottom row and scrolled up a row at each new line. The writer keeps the
//! screen's contents; copying them to the display memory is left to the
//! caller.

use vstd::prelude::*;
use vstd::string::StringSliceAdditionalSpecFns;

verus! {

pub const BUFFER_HEIGHT: usize = 25;

pub const BUFFER_WIDTH: usize = 80;

/// The byte shown in place of one outside printable ASCII.
pub const REPLACEMENT_BYTE: u8 = 0xfe;

/// The sixteen text-mode colors.
#[derive(Clone, Copy, Debug, PartialEq, Eq, Structural)]
pub enum Color {
    Black,
    Blue,
    Green,
    Cyan,
    Red,
    Magenta,
    Brown,
    LightGray,
    DarkGray,
    LightBlue,
    LightGreen,
    LightCyan,
    LightRed,
    Pink,
    Yellow,
    White,
}

impl Color {
    /// The color's 4-bit number.
    pub open spec fn index(self) -> u8 {
        match self {
            Color::Black => 0,
            Color::Blue => 1,
            Color::Green => 2,
            Color::Cyan => 3,
            Color::Red => 4,
            Color::Magenta => 5,
            Color::Brown => 6,
            Color::LightGray => 7,
            Color::DarkGray => 8,
            Color::LightBlue => 9,
            Color::LightGreen => 10,
            Color::LightCyan => 11,
            Color::LightRed => 12,
            Color::Pink => 13,
            Color::Yellow => 14,
            Color::White => 15,
        }
    }

    pub fn as_u8(self) -> (r: u8)
        ensures
            r == self.index(),
            r < 16,
    {
        match self {
            Color::Black => 0,
            Color::Blue => 1,
            Color::Green => 2,
            Color::Cyan => 3,
            Color::Red => 4,
            Color::Magenta => 5,
            Color::Brown => 6,
            Color::LightGray => 7,
            Color::DarkGray => 8,
            Color::LightBlue => 9,
            Color::LightGreen => 10,
            Color::LightCyan => 11,
            Color::LightRed => 12,
            Color::Pink => 13,
            Color::Yellow => 14,
            Color::White => 15,
        }
    }
}

/// A cell's attribute byte: background in the high four bits, foreground
/// in the low four.
#[derive(Clone, Copy, Debug, PartialEq, Eq, Structural)]
pub struct ColorCode {
    code: u8,
}

impl ColorCode {
    pub closed spec fn value_spec(self) -> u8 {
        self.code
    }

    pub fn new(foreground: Color, background: Color) -> (r: ColorCode)
        ensures
            r.value_spec() == background.index() * 16 + foreground.index(),
    {
        let f = foreground.as_u8();
        let b = background.as_u8();
        let code = (b << 4u8) | f;
        proof {
            assert(f < 16 && b < 16 ==> (b << 4u8) | f == b * 16 + f) by (bit_vector);
        }
        ColorCode { code }
    }

    pub fn value(&self) -> (r: u8)
        ensures
            r == self.value_spec(),
    {
        self.code
    }
}

/// One character cell: the byte shown and its colors.
#[derive(Clone, Copy, Debug, PartialEq, Eq, Structural)]
pub struct ScreenChar {
    pub ascii_character: u8,
    pub color_code: ColorCode,
}

/// The screen's contents and the column where the next byte goes on the
/// bottom row.
pub struct TextView {
    pub rows: Seq<Seq<ScreenChar>>,
    pub column: int,
}

pub open spec fn blank(color: ColorCode) -> ScreenChar {
    ScreenChar { ascii_character: 0x20, color_code: color }
}

pub open spec fn blank_row(color: ColorCode) -> Seq<ScreenChar> {
    Seq::new(BUFFER_WIDTH as nat, |i: int| blank(color))
}

/// Every row moves up one, the top row is lost, the bottom row is blank,
/// and writing restarts at its first column.
pub open spec fn new_line_spec(v: TextView, color: ColorCode) -> TextView {
    TextView { rows: v.rows.subrange(1, BUFFER_HEIGHT as int).push(blank_row(color)), column: 0 }
}

/// A byte written to the screen: a line feed starts a new line; any other
/// byte goes in the next cell of the bottom row, after a new line if that
/// row is full.
pub open spec fn write_byte_spec(v: TextView, color: ColorCode, byte: u8) -> TextView {
    if byte == 0x0a {
        new_line_spec(v, color)
    } else {
        let w = if v.column >= BUFFER_WIDTH {
            new_line_spec(v, color)
        } else {
            v
        };
        let last = BUFFER_HEIGHT - 1;
        TextView {
            rows: w.rows.update(
                last,
                w.rows[last].update(w.column, ScreenChar { ascii_character: byte, color_code: color }),
            ),
            column: w.column + 1,
        }
    }
}

/// The byte that the screen shows for `byte`: printable ASCII and the line
/// feed as they are, anything else as the replacement byte.
pub open spec fn shown(byte: u8) -> u8 {
    if (0x20 <= byte <= 0x7e) || byte == 0x0a {
        byte
    } else {
        REPLACEMENT_BYTE
    }
}

/// The bytes written one after another, each as the screen shows it.
pub open spec fn write_bytes_spec(v: TextView, color: ColorCode, bytes: Seq<u8>) -> TextView
    decreases bytes.len(),
{
    if bytes.len() == 0 {
        v
    } else {
        write_byte_spec(write_bytes_spec(v, color, bytes.drop_last()), color, shown(bytes.last()))
    }
}

/// Writes bytes to the text-mode screen.
pub struct Writer {
    column_position: usize,
    color_code: ColorCode,
    chars: [[ScreenChar; BUFFER_WIDTH]; BUFFER_HEIGHT],
}

impl View for Writer {
    type V = TextView;

    closed spec fn view(&self) -> TextView {
        TextView {
            rows: self.chars@.map_values(|r: [ScreenChar; BUFFER_WIDTH]| r@),
            column: self.column_position as int,
        }
    }
}

pub open spec fn view_wf(v: TextView) -> bool {
    &&& v.rows.len() == BUFFER_HEIGHT
    &&& forall|r: int| 0 <= r < BUFFER_HEIGHT ==> #[trigger] v.rows[r].len() == BUFFER_WIDTH
    &&& 0 <= v.column <= BUFFER_WIDTH
}

impl Writer {
    pub closed spec fn color_spec(&self) -> ColorCode {
        self.color_code
    }

    pub open spec fn wf(&self) -> bool {
        view_wf(self@)
    }

    proof fn lemma_shape(&self)
        requires
            self.column_position <= BUFFER_WIDTH,
        ensures
            self.wf(),
            forall|r: int| 0 <= r < BUFFER_HEIGHT ==> #[trigger] self@.rows[r] == self.chars@[r]@,
    {
        assert forall|r: int| 0 <= r < BUFFER_HEIGHT implies #[trigger] self@.rows[r].len()
            == BUFFER_WIDTH && self@.rows[r] == self.chars@[r]@ by {
            assert(self@.rows[r] == self.chars@[r]@);
        }
    }

    fn blank_row(color_code: ColorCode) -> (r: [ScreenChar; BUFFER_WIDTH])
        ensures
            r@ == blank_row(color_code),
    {
        let r: [ScreenChar; BUFFER_WIDTH] = vstd::array::array_fill_for_copy_types(
            ScreenChar { ascii_character: 0x20, color_code },
        );
        assert(r@ =~= blank_row(color_code));
        r
    }

    /// A writer on a blank screen, at the first column.
    pub fn new(color_code: ColorCode) -> (r: Writer)
        ensures
            r.wf(),
            r.color_spec() == color_code,
            r@.column == 0,
            forall|row: int| 0 <= row < BUFFER_HEIGHT ==> r@.rows[row] == blank_row(color_code),
    {
        let row = Self::blank_row(color_code);
        let chars: [[ScreenChar; BUFFER_WIDTH]; BUFFER_HEIGHT] =
            vstd::array::array_fill_for_copy_types(row);
        let w = Writer { column_position: 0, color_code, chars };
        proof {
            w.lemma_shape();
        }
        w
    }

    /// The cell at `row`, `column`.
    pub fn char_at(&self, row: usize, column: usize) -> (r: ScreenChar)
        requires
            self.wf(),
            row < BUFFER_HEIGHT,
            column < BUFFER_WIDTH,
        ensures
            r == self@.rows[row as int][column as int],
    {
        proof {
            self.lemma_shape();
        }
        self.chars[row][column]
    }

    pub fn column_position(&self) -> (r: usize)
        ensures
            r == self@.column,
    {
        self.column_position
    }

    /// Fills `row` with blanks in the writer's colors.
    fn clear_row(&mut self, row: usize)
        requires
            old(self).wf(),
            row < BUFFER_HEIGHT,
        ensures
            final(self).wf(),
            final(self).color_spec() == old(self).color_spec(),
            final(self)@.column == old(self)@.column,
            final(self)@.rows == old(self)@.rows.update(row as int, blank_row(old(self).color_spec())),
    {
        self.chars[row] = Self::blank_row(self.color_code);
        proof {
            self.lemma_shape();
            old(self).lemma_shape();
            assert(self@.rows =~= old(self)@.rows.update(row as int, blank_row(self.color_code)));
        }
    }

    /// Copies every row to the one above it, losing the top row, then
    /// blanks the bottom row and restarts at its first column.
    fn new_line(&mut self)
        requires
            old(self).wf(),
        ensures
            final(self).wf(),
            final(self).color_spec() == old(self).color_spec(),
            final(self)@ == new_line_spec(old(self)@, old(self).color_spec()),
    {
        proof {
            old(self).lemma_shape();
        }
        let mut row: usize = 1;
        while row < BUFFER_HEIGHT
            invariant
                1 <= row <= BUFFER_HEIGHT,
                self.color_code == old(self).color_code,
                self.column_position == old(self).column_position,
                forall|r: int| 0 <= r < row - 1 ==> self.chars@[r] == old(self).chars@[r + 1],
                forall|r: int| row - 1 <= r < BUFFER_HEIGHT ==> self.chars@[r] == old(
                    self,
                ).chars@[r],
            decreases BUFFER_HEIGHT - row,
        {
            let line = self.chars[row];
            self.chars[row - 1] = line;
            row = row + 1;
        }
        self.column_position = 0;
        proof {
            self.lemma_shape();
        }
        self.clear_row(BUFFER_HEIGHT - 1);
        proof {
            self.lemma_shape();
            assert(self@.rows =~= new_line_spec(old(self)@, old(self).color_spec()).rows);
        }
    }

    /// Writes one byte as it is: a line feed starts a new line; any other
    /// byte goes in the next cell of the bottom row.
    fn write_byte(&mut self, byte: u8)
        requires
            old(self).wf(),
        ensures
            final(self).wf(),
            final(self).color_spec() == old(self).color_spec(),
            final(self)@ == write_byte_spec(old(self)@, old(self).color_spec(), byte),
    {
        if byte == 0x0a {
            self.new_line();
        } else {
            if self.column_position >= BUFFER_WIDTH {
                self.new_line();
            }
            let ghost mid = *self;
            proof {
                mid.lemma_shape();
            }
            let row = BUFFER_HEIGHT - 1;
            let col = self.column_position;
            let mut cells = self.chars[row];
            cells[col] = ScreenChar { ascii_character: byte, color_code: self.color_code };
            self.chars[row] = cells;
            self.column_position = col + 1;
            proof {
                self.lemma_shape();
                let want = write_byte_spec(old(self)@, old(self).color_spec(), byte);
                assert(self@.rows =~= want.rows) by {
                    assert forall|r: int| 0 <= r < BUFFER_HEIGHT implies self@.rows[r]
                        == want.rows[r] by {
                        if r != row {
                            assert(self.chars@[r] == mid.chars@[r]);
                        } else {
                            assert(self@.rows[r] =~= want.rows[r]);
                        }
                    }
                }
            }
        }
    }

    /// Writes `s` byte by byte, showing printable ASCII and line feeds as
    /// they are and any other byte as the replacement byte.
    pub fn write_string(&mut self, s: &str)
        requires
            old(self).wf(),
        ensures
            final(self).wf(),
            final(self).color_spec() == old(self).color_spec(),
            final(self)@ == write_bytes_spec(old(self)@, old(self).color_spec(), s.spec_bytes()),
    {
        let bytes = s.as_bytes();
        let mut i: usize = 0;
        while i < bytes.len()
            invariant
                self.wf(),
                self.color_spec() == old(self).color_spec(),
                bytes@ == s.spec_bytes(),
                i <= bytes@.len(),
                self@ == write_bytes_spec(old(self)@, old(self).color_spec(), bytes@.subrange(0, i as int)),
            decreases bytes@.len() - i,
        {
            let byte = bytes[i];
            let b = if (0x20 <= byte && byte <= 0x7e) || byte == 0x0a {
                byte
            } else {
                REPLACEMENT_BYTE
            };
            self.write_byte(b);
            proof {
                assert(bytes@.subrange(0, i + 1).drop_last() =~= bytes@.subrange(0, i as int));
            }
            i = i + 1;
        }
        proof {
            assert(bytes@.subrange(0, bytes@.len() as int) =~= bytes@);
        }
    }
}

} // verus!
