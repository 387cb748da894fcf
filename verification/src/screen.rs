//! What the text display shows, as a mathematical value, and what writing
//! does to it.

use crate::vga_buffer::{ColorCode, ScreenChar};
use vstd::prelude::*;

verus! {

/// The line break.
pub const NEWLINE: u8 = 0x0a;

/// The byte shown in place of one that the display could not render.
pub const REPLACEMENT: u8 = 0xfe;

/// Whether `byte` is written as it is: printable ASCII, or the line break.
pub open spec fn is_printable(byte: u8) -> bool {
    (0x20 <= byte && byte <= 0x7e) || byte == NEWLINE
}

/// The byte that is written for the byte `byte` of a text.
pub open spec fn displayed(byte: u8) -> u8 {
    if is_printable(byte) {
        byte
    } else {
        REPLACEMENT
    }
}

/// The display: 25 rows of 80 cells, row after row, the column at which the
/// next character goes into the last row, and the colours of what is written.
pub struct Screen {
    pub cells: Seq<ScreenChar>,
    pub column: nat,
    pub color: ColorCode,
}

impl Screen {
    pub open spec fn wf(self) -> bool {
        self.cells.len() == 2000 && self.column <= 80
    }

    /// The cell in row `row`, column `col`.
    pub open spec fn cell(self, row: int, col: int) -> ScreenChar {
        self.cells[row * 80 + col]
    }

    /// A cell that shows nothing: character 0 in the display's colours.
    pub open spec fn blank(self) -> ScreenChar {
        ScreenChar { ascii_character: 0, color_code: self.color }
    }

    /// Every row moves up by one, the first is lost, the last becomes blank,
    /// and the column goes back to 0.
    pub open spec fn new_line(self) -> Screen {
        Screen {
            cells: self.cells.subrange(80, 2000) + Seq::new(80, |i: int| self.blank()),
            column: 0,
            color: self.color,
        }
    }

    /// `byte` goes into the last row at the column, which moves on by one.
    pub open spec fn put(self, byte: u8) -> Screen {
        Screen {
            cells: self.cells.update(
                1920 + self.column as int,
                ScreenChar { ascii_character: byte, color_code: self.color },
            ),
            column: self.column + 1,
            color: self.color,
        }
    }

    /// One byte is written: a line break starts a new line; any other byte is
    /// put into the last row, after a new line if that row is full.
    pub open spec fn write_byte(self, byte: u8) -> Screen {
        if byte == NEWLINE {
            self.new_line()
        } else if self.column >= 80 {
            self.new_line().put(byte)
        } else {
            self.put(byte)
        }
    }

    /// The bytes of a text are written in order, each as `displayed` gives it.
    pub open spec fn write_string(self, bytes: Seq<u8>) -> Screen
        decreases bytes.len(),
    {
        if bytes.len() == 0 {
            self
        } else {
            self.write_string(bytes.drop_last()).write_byte(displayed(bytes.last()))
        }
    }
}

/// Writing a byte leaves the display well formed.
pub proof fn lemma_write_byte_wf(screen: Screen, byte: u8)
    requires
        screen.wf(),
    ensures
        screen.write_byte(byte).wf(),
        screen.write_byte(byte).color == screen.color,
{
}

/// Writing a text leaves the display well formed.
pub proof fn lemma_write_string_wf(screen: Screen, bytes: Seq<u8>)
    requires
        screen.wf(),
    ensures
        screen.write_string(bytes).wf(),
        screen.write_string(bytes).color == screen.color,
    decreases bytes.len(),
{
    if bytes.len() > 0 {
        lemma_write_string_wf(screen, bytes.drop_last());
        lemma_write_byte_wf(screen.write_string(bytes.drop_last()), displayed(bytes.last()));
    }
}

/// Writing one text after another is writing the two as one.
pub proof fn lemma_write_string_concat(screen: Screen, first: Seq<u8>, second: Seq<u8>)
    ensures
        screen.write_string(first + second) == screen.write_string(first).write_string(second),
    decreases second.len(),
{
    if second.len() == 0 {
        assert(first + second =~= first);
    } else {
        assert((first + second).drop_last() =~= first + second.drop_last());
        lemma_write_string_concat(screen, first, second.drop_last());
    }
}

/// A byte of a text that is no line break is stored in the last row, in the
/// display's colours: as itself if it is printable ASCII, as the replacement
/// byte if it is not. It stands at the column that the display was at, or at
/// column 0 of a new line if the last row was full.
pub proof fn lemma_written_byte_reads_back(screen: Screen, byte: u8)
    requires
        screen.wf(),
        byte != NEWLINE,
    ensures
        ({
            let after = screen.write_string(seq![byte]);
            let col = if screen.column >= 80 { 0 } else { screen.column as int };
            &&& after.wf()
            &&& after.column == col + 1
            &&& after.cell(24, col).ascii_character == (if 0x20 <= byte && byte <= 0x7e {
                byte
            } else {
                REPLACEMENT
            })
            &&& after.cell(24, col).color_code == screen.color
        }),
{
    reveal_with_fuel(Screen::write_string, 2);
    assert(seq![byte].drop_last() =~= Seq::<u8>::empty());
    assert(seq![byte].last() == byte);
}

/// Written from column 0, the first `count` bytes of a text without line
/// breaks stand at the start of the last row, and nothing else has changed.
proof fn lemma_fills_last_row(screen: Screen, text: Seq<u8>, count: nat)
    requires
        screen.wf(),
        screen.column == 0,
        count <= 80,
        count <= text.len(),
        forall|i: int| 0 <= i < count ==> text[i] != NEWLINE,
    ensures
        ({
            let after = screen.write_string(text.take(count as int));
            &&& after.wf()
            &&& after.column == count
            &&& after.color == screen.color
            &&& forall|i: int| 0 <= i < 1920 ==> after.cells[i] == screen.cells[i]
            &&& forall|c: int|
                0 <= c < count ==> #[trigger] after.cells[1920 + c] == (ScreenChar {
                    ascii_character: displayed(text[c]),
                    color_code: screen.color,
                })
            &&& forall|c: int|
                count <= c < 80 ==> #[trigger] after.cells[1920 + c] == screen.cells[1920 + c]
        }),
    decreases count,
{
    if count == 0 {
        assert(text.take(0) =~= Seq::<u8>::empty());
    } else {
        let shorter = (count - 1) as nat;
        lemma_fills_last_row(screen, text, shorter);
        assert(text.take(count as int).drop_last() =~= text.take(shorter as int));
        assert(text.take(count as int).last() == text[count - 1]);
    }
}

/// Written from column 0, eighty characters without a line break fill the
/// last row, and the eighty-first starts a new line: it stands at column 0 of
/// the last row, the rest of that row is blank, the eighty stand in the row
/// above, and every row before has moved up by one.
pub proof fn lemma_eighty_first_wraps(screen: Screen, text: Seq<u8>)
    requires
        screen.wf(),
        screen.column == 0,
        text.len() == 81,
        forall|i: int| 0 <= i < 81 ==> text[i] != NEWLINE,
    ensures
        ({
            let after = screen.write_string(text);
            &&& after.wf()
            &&& after.column == 1
            &&& after.cell(24, 0) == (ScreenChar {
                ascii_character: displayed(text[80]),
                color_code: screen.color,
            })
            &&& forall|c: int| 1 <= c < 80 ==> after.cell(24, c) == screen.blank()
            &&& forall|c: int|
                0 <= c < 80 ==> after.cell(23, c) == (ScreenChar {
                    ascii_character: displayed(text[c]),
                    color_code: screen.color,
                })
            &&& forall|r: int, c: int|
                0 <= r < 23 && 0 <= c < 80 ==> after.cell(r, c) == screen.cell(r + 1, c)
        }),
{
    lemma_fills_last_row(screen, text, 80);
    assert(text.drop_last() =~= text.take(80));
    assert(text.last() == text[80]);
    let full = screen.write_string(text.take(80));
    let after = screen.write_string(text);
    assert(after == full.new_line().put(displayed(text[80])));
    assert forall|c: int| 0 <= c < 80 implies after.cell(23, c) == (ScreenChar {
        ascii_character: displayed(text[c]),
        color_code: screen.color,
    }) by {
        assert(after.cells[1840 + c] == full.cells[1920 + c]);
    }
    assert forall|r: int, c: int| 0 <= r < 23 && 0 <= c < 80 implies after.cell(r, c)
        == screen.cell(r + 1, c) by {
        let i = r * 80 + c;
        assert(after.cells[i] == full.cells[i + 80]);
    }
}

/// After `count` line breaks the last `count` rows are blank, or all of them
/// if the display has no more.
proof fn lemma_newlines_blank_rows(screen: Screen, count: nat)
    requires
        screen.wf(),
    ensures
        ({
            let after = screen.write_string(Seq::new(count, |i: int| NEWLINE));
            let rows = if count < 25 { count as int } else { 25 };
            &&& after.wf()
            &&& after.color == screen.color
            &&& count > 0 ==> after.column == 0
            &&& forall|i: int| 2000 - 80 * rows <= i < 2000 ==> after.cells[i] == screen.blank()
        }),
    decreases count,
{
    let breaks = Seq::new(count, |i: int| NEWLINE);
    if count > 0 {
        let shorter = (count - 1) as nat;
        lemma_newlines_blank_rows(screen, shorter);
        assert(breaks.drop_last() =~= Seq::new(shorter, |i: int| NEWLINE));
        assert(breaks.last() == NEWLINE);
    }
}

/// After as many line breaks as the display has rows, or more, every cell is
/// blank.
pub proof fn lemma_newlines_blank_the_grid(screen: Screen, count: nat)
    requires
        screen.wf(),
        count >= 25,
    ensures
        ({
            let after = screen.write_string(Seq::new(count, |i: int| NEWLINE));
            &&& after.wf()
            &&& after.column == 0
            &&& forall|row: int, col: int|
                0 <= row < 25 && 0 <= col < 80 ==> after.cell(row, col) == screen.blank()
        }),
{
    lemma_newlines_blank_rows(screen, count);
}

} // verus!
