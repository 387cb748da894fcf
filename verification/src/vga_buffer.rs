//! The text-mode display driver: a grid of 25 rows of 80 cells in memory, two
//! bytes to a cell, written at the bottom and scrolled upwards.

use crate::memory::Memory;
use crate::screen::{Screen, NEWLINE, REPLACEMENT};
use crate::unsafe_ptr::UnsafePointer;
use vstd::prelude::*;
use vstd::string::StringSliceAdditionalSpecFns;

verus! {

/// The sixteen colours of the text mode.
#[allow(dead_code)]
#[derive(Debug, Clone, Copy, PartialEq, Eq, Structural)]
pub enum Color {
    Black,
    Blue,
    Green,
    Cyan,
    Red,
    Magenta,
    Brown,
    LightGray,
    DarkGray,
    LightBlue,
    LightGreen,
    LightCyan,
    LightRed,
    Pink,
    Yellow,
    White,
}

impl Color {
    /// The number by which the display knows the colour.
    pub open spec fn spec_code(self) -> u8 {
        match self {
            Color::Black => 0,
            Color::Blue => 1,
            Color::Green => 2,
            Color::Cyan => 3,
            Color::Red => 4,
            Color::Magenta => 5,
            Color::Brown => 6,
            Color::LightGray => 7,
            Color::DarkGray => 8,
            Color::LightBlue => 9,
            Color::LightGreen => 10,
            Color::LightCyan => 11,
            Color::LightRed => 12,
            Color::Pink => 13,
            Color::Yellow => 14,
            Color::White => 15,
        }
    }

    /// The number by which the display knows the colour.
    #[verifier::when_used_as_spec(spec_code)]
    pub fn code(self) -> (code: u8)
        ensures
            code == self.spec_code(),
            code < 16,
    {
        match self {
            Color::Black => 0,
            Color::Blue => 1,
            Color::Green => 2,
            Color::Cyan => 3,
            Color::Red => 4,
            Color::Magenta => 5,
            Color::Brown => 6,
            Color::LightGray => 7,
            Color::DarkGray => 8,
            Color::LightBlue => 9,
            Color::LightGreen => 10,
            Color::LightCyan => 11,
            Color::LightRed => 12,
            Color::Pink => 13,
            Color::Yellow => 14,
            Color::White => 15,
        }
    }
}

/// The attribute byte of a cell: the foreground colour in the low four bits,
/// the background colour in the high four.
#[derive(Debug, Clone, Copy, PartialEq, Eq, Structural)]
pub struct ColorCode(pub u8);

impl ColorCode {
    /// The number of the foreground colour.
    pub open spec fn foreground(self) -> u8 {
        self.0 % 16
    }

    /// The number of the background colour.
    pub open spec fn background(self) -> u8 {
        self.0 / 16
    }

    /// The attribute of `foreground` on `background`.
    pub fn new(foreground: Color, background: Color) -> (code: ColorCode)
        ensures
            code.0 == background.code() * 16 + foreground.code(),
            code.0 == (background.code() << 4) | foreground.code(),
            code.foreground() == foreground.code(),
            code.background() == background.code(),
    {
        let high: u8 = background.code();
        let low: u8 = foreground.code();
        assert(((high << 4) | low) == high * 16 + low) by (bit_vector)
            requires
                high < 16,
                low < 16,
        ;
        ColorCode((high << 4) | low)
    }
}

impl Default for ColorCode {
    /// Yellow on black.
    fn default() -> (code: Self)
        ensures
            code.0 == 0x0e,
    {
        Self::new(Color::Yellow, Color::Black)
    }
}

/// One cell of the display: a character and its attribute.
#[derive(Debug, Clone, Copy, PartialEq, Eq, Structural)]
pub struct ScreenChar {
    pub ascii_character: u8,
    pub color_code: ColorCode,
}

pub const BUFFER_HEIGHT: usize = 25;

pub const BUFFER_WIDTH: usize = 80;

/// The cell with index `i` of a grid that starts at `base`: the character at
/// byte `2 * i`, the attribute behind it.
pub open spec fn cell_in(bytes: Map<usize, u8>, base: usize, i: int) -> ScreenChar {
    ScreenChar {
        ascii_character: bytes[(base + 2 * i) as usize],
        color_code: ColorCode(bytes[(base + 2 * i + 1) as usize]),
    }
}

/// The 2000 cells of a grid that starts at `base`, row after row.
pub open spec fn grid_in(bytes: Map<usize, u8>, base: usize) -> Seq<ScreenChar> {
    Seq::new(2000, |i: int| cell_in(bytes, base, i))
}

/// Whether all 4000 bytes of a grid that starts at `base` are mapped.
pub open spec fn maps_grid(bytes: Map<usize, u8>, base: usize) -> bool {
    &&& base + 4000 <= usize::MAX
    &&& forall|a: usize| base <= a < base + 4000 ==> bytes.dom().contains(a)
}

/// The driver: where the grid lies in memory, the column of the next
/// character in the last row, and the colours to write in.
pub struct Writer<M: Memory> {
    column_position: usize,
    color_code: ColorCode,
    base_addr: UnsafePointer,
    memory: M,
}

impl<M: Memory> Writer<M> {
    /// The address of the grid's first byte.
    pub closed spec fn base(&self) -> usize {
        self.base_addr@
    }

    /// What the memory behind the driver holds.
    pub closed spec fn bytes(&self) -> Map<usize, u8> {
        self.memory.view()
    }

    /// The column of the next character.
    pub closed spec fn column(&self) -> nat {
        self.column_position as nat
    }

    /// The colours that the driver writes in.
    pub closed spec fn color(&self) -> ColorCode {
        self.color_code
    }

    /// The column is on the grid or just past its last cell, and the grid
    /// lies in mapped memory.
    pub open spec fn wf(&self) -> bool {
        &&& self@.wf()
        &&& maps_grid(self.bytes(), self.base())
    }

    /// What the display shows.
    pub open spec fn view(&self) -> Screen {
        Screen {
            cells: grid_in(self.bytes(), self.base()),
            column: self.column(),
            color: self.color(),
        }
    }

    /// The grid is where it was in `before`, and no byte outside it differs.
    pub open spec fn keeps_surroundings(&self, before: &Self) -> bool {
        &&& self.base() == before.base()
        &&& self.bytes().dom() == before.bytes().dom()
        &&& forall|a: usize|
            !(self.base() <= a < self.base() + 4000) ==> self.bytes()[a] == before.bytes()[a]
    }

    /// A driver for the grid that starts at `base_addr` in `memory`. It
    /// writes yellow on black, from column 0, and leaves the grid as it is.
    pub fn new(memory: M, base_addr: UnsafePointer) -> (writer: Self)
        requires
            maps_grid(memory.view(), base_addr@),
        ensures
            writer.wf(),
            writer.base() == base_addr@,
            writer.bytes() == memory.view(),
            writer@.column == 0,
            writer@.color == ColorCode(0x0e),
    {
        Writer { column_position: 0, color_code: ColorCode::default(), base_addr, memory }
    }

    /// The column at which the next character goes into the last row.
    pub fn column_position(&self) -> (column: usize)
        ensures
            column == self.column(),
    {
        self.column_position
    }

    /// The memory behind the driver.
    pub fn memory(&self) -> (memory: &M)
        ensures
            memory.view() == self.bytes(),
    {
        &self.memory
    }

    /// The cell in row `row`, column `col`, read back from memory.
    pub fn read_row_col(&self, row: usize, col: usize) -> (screen_char: ScreenChar)
        requires
            self.wf(),
            row < BUFFER_HEIGHT,
            col < BUFFER_WIDTH,
        ensures
            screen_char == self@.cell(row as int, col as int),
    {
        let addr = self.base_addr.add(2 * (row * BUFFER_WIDTH + col));
        let ascii_character = addr.read_volatile(&self.memory);
        let color_code = ColorCode(addr.add(1).read_volatile(&self.memory));
        ScreenChar { ascii_character, color_code }
    }

    /// Writes one byte: a line break starts a new line; any other byte goes
    /// into the last row as it is, after a new line if that row is full.
    pub fn write_byte(&mut self, byte: u8)
        requires
            old(self).wf(),
        ensures
            final(self).wf(),
            final(self)@ == old(self)@.write_byte(byte),
            final(self).keeps_surroundings(old(self)),
    {
        if byte == NEWLINE {
            self.new_line();
        } else {
            if self.column_position >= BUFFER_WIDTH {
                self.new_line();
            }
            let row = BUFFER_HEIGHT - 1;
            let col = self.column_position;

            self.write_row_col(
                row,
                col,
                ScreenChar { ascii_character: byte, color_code: self.color_code },
            );
            self.column_position += 1;
        }
    }

    /// Writes a text byte by byte: printable ASCII and line breaks as they
    /// are, every other byte as the replacement byte.
    pub fn write_string(&mut self, s: &str)
        requires
            old(self).wf(),
        ensures
            final(self).wf(),
            final(self)@ == old(self)@.write_string(s.spec_bytes()),
            final(self).keeps_surroundings(old(self)),
    {
        let bytes = s.as_bytes();
        for i in 0..bytes.len()
            invariant
                bytes@ == s.spec_bytes(),
                self.wf(),
                self@ == old(self)@.write_string(bytes@.take(i as int)),
                self.keeps_surroundings(old(self)),
        {
            let byte = bytes[i];
            assert(bytes@.take(i + 1).drop_last() == bytes@.take(i as int));
            if (0x20 <= byte && byte <= 0x7e) || byte == NEWLINE {
                // printable ASCII byte or newline
                self.write_byte(byte);
            } else {
                // not part of printable ASCII range
                self.write_byte(REPLACEMENT);
            }
        }
        assert(bytes@.take(bytes@.len() as int) == bytes@);
    }

    /// Stores a character and its attribute, in this order, in the two bytes
    /// that start `location` bytes into the grid.
    fn write(&mut self, location: usize, byte: u8, color_code: ColorCode)
        requires
            old(self).wf(),
            location + 1 < 4000,
        ensures
            final(self).base() == old(self).base(),
            final(self).column() == old(self).column(),
            final(self).color() == old(self).color(),
            final(self).bytes() == old(self).bytes().insert(
                (old(self).base() + location) as usize,
                byte,
            ).insert((old(self).base() + location + 1) as usize, color_code.0),
    {
        let mut addr = self.base_addr.add(location);
        addr.write_volatile(&mut self.memory, byte);
        addr = addr.add(1);
        addr.write_volatile(&mut self.memory, color_code.0);
    }

    /// Stores `screen_char` in the cell in row `row`, column `col`, which is
    /// cell `row * 80 + col` of the grid.
    fn write_row_col(&mut self, row: usize, col: usize, screen_char: ScreenChar)
        requires
            old(self).wf(),
            row < BUFFER_HEIGHT,
            col < BUFFER_WIDTH,
        ensures
            final(self).wf(),
            final(self).keeps_surroundings(old(self)),
            final(self)@ == (Screen {
                cells: old(self)@.cells.update(row * 80 + col, screen_char),
                column: old(self)@.column,
                color: old(self)@.color,
            }),
    {
        let location = 2 * (row * BUFFER_WIDTH + col);
        self.write(location, screen_char.ascii_character, screen_char.color_code);
        assert(self.bytes().dom() =~= old(self).bytes().dom());
        assert(self@.cells =~= old(self)@.cells.update(row * 80 + col, screen_char));
    }

    /// Moves every row up by one, blanks the last row, and sets the column
    /// to 0.
    fn new_line(&mut self)
        requires
            old(self).wf(),
        ensures
            final(self).wf(),
            final(self)@ == old(self)@.new_line(),
            final(self).keeps_surroundings(old(self)),
    {
        let ghost before = self.bytes();
        let ghost base = self.base() as int;
        let mut dest = self.base_addr;
        let mut src = self.base_addr.add(2 * BUFFER_WIDTH);
        let last = 2 * (BUFFER_HEIGHT - 1) * BUFFER_WIDTH;
        for i in 0..last
            invariant
                last == 3840,
                base == self.base() == old(self).base(),
                base + 4000 <= usize::MAX,
                self.column() == old(self).column(),
                self.color() == old(self).color(),
                dest@ == base + i,
                src@ == base + 160 + i,
                self.bytes().dom() == before.dom(),
                forall|a: usize| base <= a < base + 4000 ==> before.dom().contains(a),
                forall|a: usize|
                    self.bytes()[a] == if base <= a < base + i {
                        before[(a + 160) as usize]
                    } else {
                        before[a]
                    },
        {
            let byte: u8 = src.read_volatile(&self.memory);
            dest.write_volatile(&mut self.memory, byte);
            src = src.add(1);
            dest = dest.add(1);
        }

        // clear last line
        for col in 0..BUFFER_WIDTH
            invariant
                base == self.base() == old(self).base(),
                base + 4000 <= usize::MAX,
                self.column() == old(self).column(),
                self.color() == old(self).color(),
                dest@ == base + 3840 + 2 * col,
                self.bytes().dom() == before.dom(),
                forall|a: usize| base <= a < base + 4000 ==> before.dom().contains(a),
                forall|a: usize|
                    self.bytes()[a] == if base <= a < base + 3840 {
                        before[(a + 160) as usize]
                    } else if base + 3840 <= a < base + 3840 + 2 * col {
                        if (a - base) % 2 == 0 {
                            0u8
                        } else {
                            self.color().0
                        }
                    } else {
                        before[a]
                    },
        {
            dest.write_volatile(&mut self.memory, 0);
            dest = dest.add(1);
            dest.write_volatile(&mut self.memory, self.color_code.0);
            dest = dest.add(1);
        }

        self.column_position = 0;
        assert(self@.cells =~= old(self)@.new_line().cells);
    }
}

} // verus!
