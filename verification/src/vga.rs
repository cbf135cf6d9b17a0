//! Text console over the framebuffer: a 160x50 character grid with a
//! cursor. Writing a character updates the cursor and yields the drawing
//! operations (glyph draws and whole-screen scrolls) for the renderer.

use vstd::prelude::*;
use vstd::string::*;
use crate::fmt::{decimal_string, hex_string, spec_digits};

verus! {

/// Columns of the text grid.
pub const VGA_WIDTH: usize = 160;

/// Rows of the text grid.
pub const VGA_HEIGHT: usize = 50;

/// Text colour.
pub const WHITE: u32 = 0xFFFFFF;

/// Background colour.
pub const BLACK: u32 = 0x000000;

/// A drawing operation for the renderer.
#[derive(Debug, Clone, Copy, PartialEq, Eq, Structural)]
pub enum ConsoleOp {
    /// Draw glyph `glyph` in colour `color` in cell (`row`, `col`).
    Draw { glyph: u8, row: usize, col: usize, color: u32 },
    /// Move every character row up by one and clear the last row.
    Scroll,
    /// Clear the whole screen.
    Clear,
}

/// The console cursor.
#[derive(Debug, Clone, Copy, PartialEq, Eq, Structural)]
pub struct VgaWriter {
    pub row: usize,
    pub col: usize,
}

/// The glyph index of a code point: Latin-1 maps to itself, the euro sign
/// to 0x80, anything else to the replacement glyph 0x81.
pub open spec fn spec_codepoint_index(cp: u32) -> u8 {
    if cp <= 0xFF {
        cp as u8
    } else if cp == 0x20AC {
        0x80
    } else {
        0x81
    }
}

/// The glyph index of a code point.
pub fn codepoint_index(cp: u32) -> (g: u8)
    ensures
        g == spec_codepoint_index(cp),
{
    if cp <= 0xFF {
        cp as u8
    } else if cp == 0x20AC {
        0x80
    } else {
        0x81
    }
}

/// The cursor and operations after writing glyph `c` at (`row`, `col`):
/// newline moves to the start of the next row, carriage return to the start
/// of the row, backspace steps back (if it can) and blanks the cell, any
/// other glyph is drawn in white and the cursor advances; a full row wraps,
/// and running off the last row scrolls and continues at the start of the
/// last row.
pub open spec fn spec_write_char(row: int, col: int, c: u8) -> (int, int, Seq<ConsoleOp>) {
    let (r1, c1, ops) = if c == 10 {
        (row + 1, 0int, Seq::<ConsoleOp>::empty())
    } else if c == 13 {
        (row, 0int, Seq::<ConsoleOp>::empty())
    } else if c == 8 {
        let nc = if col > 0 { col - 1 } else { col };
        (
            row,
            nc,
            seq![ConsoleOp::Draw { glyph: 32, row: row as usize, col: nc as usize, color: BLACK }],
        )
    } else {
        (row, col + 1, seq![ConsoleOp::Draw { glyph: c, row: row as usize, col: col as usize, color: WHITE }])
    };
    let (r2, c2) = if c1 >= VGA_WIDTH {
        (r1 + 1, 0int)
    } else {
        (r1, c1)
    };
    if r2 >= VGA_HEIGHT {
        (VGA_HEIGHT - 1, 0int, ops.push(ConsoleOp::Scroll))
    } else {
        (r2, c2, ops)
    }
}

/// Backspace inside a line steps the cursor one cell back on the same row
/// and blanks that cell; at the start of a line it stays there and blanks
/// the cell under the cursor.
pub proof fn lemma_backspace_steps_back(row: int, col: int)
    requires
        0 <= row < VGA_HEIGHT,
        0 <= col < VGA_WIDTH,
    ensures
        col > 0 ==> spec_write_char(row, col, 8) == (
            row,
            col - 1,
            seq![ConsoleOp::Draw { glyph: 32, row: row as usize, col: (col - 1) as usize, color: BLACK }],
        ),
        col == 0 ==> spec_write_char(row, col, 8) == (
            row,
            0int,
            seq![ConsoleOp::Draw { glyph: 32, row: row as usize, col: 0, color: BLACK }],
        ),
{
}

/// A printable glyph is drawn in white at the cursor, which moves one cell
/// right; past the last column it wraps to the next row, and past the last
/// row the screen scrolls and the cursor goes to the start of the last row.
pub proof fn lemma_glyph_advances(row: int, col: int, c: u8)
    requires
        0 <= row < VGA_HEIGHT,
        0 <= col < VGA_WIDTH,
        c != 8 && c != 10 && c != 13,
    ensures
        ({
            let (r, k, ops) = spec_write_char(row, col, c);
            &&& ops[0] == (ConsoleOp::Draw { glyph: c, row: row as usize, col: col as usize, color: WHITE })
            &&& col + 1 < VGA_WIDTH ==> r == row && k == col + 1 && ops.len() == 1
            &&& col + 1 == VGA_WIDTH && row + 1 < VGA_HEIGHT ==> r == row + 1 && k == 0 && ops.len() == 1
            &&& col + 1 == VGA_WIDTH && row + 1 == VGA_HEIGHT ==> r == row && k == 0 && ops
                == seq![ops[0], ConsoleOp::Scroll]
        }),
{
}

/// Carriage return goes to the start of the row; line feed to the start of
/// the next row, scrolling from the last row. Neither draws anything.
pub proof fn lemma_line_controls(row: int, col: int)
    requires
        0 <= row < VGA_HEIGHT,
        0 <= col < VGA_WIDTH,
    ensures
        spec_write_char(row, col, 13) == (row, 0int, Seq::<ConsoleOp>::empty()),
        row + 1 < VGA_HEIGHT ==> spec_write_char(row, col, 10) == (row + 1, 0int, Seq::<ConsoleOp>::empty()),
        row + 1 == VGA_HEIGHT ==> spec_write_char(row, col, 10) == (row, 0int, seq![ConsoleOp::Scroll]),
{
    assert(Seq::<ConsoleOp>::empty().push(ConsoleOp::Scroll) =~= seq![ConsoleOp::Scroll]);
}

/// The cursor and operations after writing the glyphs `s` in order.
pub open spec fn spec_write_glyphs(row: int, col: int, s: Seq<u8>) -> (int, int, Seq<ConsoleOp>)
    decreases s.len(),
{
    if s.len() == 0 {
        (row, col, Seq::empty())
    } else {
        let (r, c, ops) = spec_write_glyphs(row, col, s.drop_last());
        let (r2, c2, ops2) = spec_write_char(r, c, s.last());
        (r2, c2, ops + ops2)
    }
}

/// The glyphs that writing the characters `s` produces.
pub open spec fn spec_glyphs(s: Seq<char>) -> Seq<u8> {
    Seq::new(s.len(), |i: int| spec_codepoint_index(s[i] as u32))
}

impl VgaWriter {
    /// The cursor is inside the grid.
    pub open spec fn wf(&self) -> bool {
        self.row < VGA_HEIGHT && self.col < VGA_WIDTH
    }

    /// Cursor at the top-left cell.
    pub fn new() -> (w: Self)
        ensures
            w.wf(),
            w.row == 0 && w.col == 0,
    {
        VgaWriter { row: 0, col: 0 }
    }

    /// Write one glyph, appending the drawing operations to `ops`.
    pub fn write_char(&mut self, c: u8, ops: &mut Vec<ConsoleOp>)
        requires
            old(self).wf(),
        ensures
            final(self).wf(),
            final(self).row as int == spec_write_char(old(self).row as int, old(self).col as int, c).0,
            final(self).col as int == spec_write_char(old(self).row as int, old(self).col as int, c).1,
            final(ops)@ == old(ops)@ + spec_write_char(old(self).row as int, old(self).col as int, c).2,
    {
        let ghost start = ops@;
        if c == 10 {
            self.row = self.row + 1;
            self.col = 0;
        } else if c == 13 {
            self.col = 0;
        } else if c == 8 {
            if self.col > 0 {
                self.col = self.col - 1;
            }
            ops.push(ConsoleOp::Draw { glyph: 32, row: self.row, col: self.col, color: BLACK });
        } else {
            ops.push(ConsoleOp::Draw { glyph: c, row: self.row, col: self.col, color: WHITE });
            self.col = self.col + 1;
        }
        if self.col >= VGA_WIDTH {
            self.col = 0;
            self.row = self.row + 1;
        }
        if self.row >= VGA_HEIGHT {
            ops.push(ConsoleOp::Scroll);
            self.row = VGA_HEIGHT - 1;
            self.col = 0;
        }
        assert(ops@ =~= start + spec_write_char(old(self).row as int, old(self).col as int, c).2);
    }

    /// Write a sequence of glyphs in order.
    pub fn write_glyphs(&mut self, s: &[u8], ops: &mut Vec<ConsoleOp>)
        requires
            old(self).wf(),
        ensures
            final(self).wf(),
            final(self).row as int == spec_write_glyphs(old(self).row as int, old(self).col as int, s@).0,
            final(self).col as int == spec_write_glyphs(old(self).row as int, old(self).col as int, s@).1,
            final(ops)@ == old(ops)@ + spec_write_glyphs(old(self).row as int, old(self).col as int, s@).2,
    {
        let ghost start = ops@;
        let ghost r0 = self.row as int;
        let ghost c0 = self.col as int;
        let mut i: usize = 0;
        while i < s.len()
            invariant
                self.wf(),
                i <= s@.len(),
                self.row as int == spec_write_glyphs(r0, c0, s@.subrange(0, i as int)).0,
                self.col as int == spec_write_glyphs(r0, c0, s@.subrange(0, i as int)).1,
                ops@ == start + spec_write_glyphs(r0, c0, s@.subrange(0, i as int)).2,
            decreases s@.len() - i,
        {
            let ghost before = ops@;
            self.write_char(s[i], ops);
            proof {
                let pre = s@.subrange(0, i as int);
                let post = s@.subrange(0, i + 1);
                assert(post.drop_last() =~= pre);
                assert(post.last() == s@[i as int]);
                assert(ops@ =~= start + spec_write_glyphs(r0, c0, post).2);
            }
            i = i + 1;
        }
        assert(s@.subrange(0, s@.len() as int) =~= s@);
    }

    /// Write one code point (mapped to its glyph).
    pub fn write_codepoint(&mut self, cp: u32, ops: &mut Vec<ConsoleOp>)
        requires
            old(self).wf(),
        ensures
            final(self).wf(),
            final(self).row as int == spec_write_char(
                old(self).row as int,
                old(self).col as int,
                spec_codepoint_index(cp),
            ).0,
            final(self).col as int == spec_write_char(
                old(self).row as int,
                old(self).col as int,
                spec_codepoint_index(cp),
            ).1,
            final(ops)@ == old(ops)@ + spec_write_char(
                old(self).row as int,
                old(self).col as int,
                spec_codepoint_index(cp),
            ).2,
    {
        self.write_char(codepoint_index(cp), ops);
    }

    /// Write the characters of `s` (each code point mapped to its glyph).
    pub fn write_str(&mut self, s: &str, ops: &mut Vec<ConsoleOp>)
        requires
            old(self).wf(),
        ensures
            final(self).wf(),
            final(self).row as int == spec_write_glyphs(old(self).row as int, old(self).col as int, spec_glyphs(s@)).0,
            final(self).col as int == spec_write_glyphs(old(self).row as int, old(self).col as int, spec_glyphs(s@)).1,
            final(ops)@ == old(ops)@ + spec_write_glyphs(old(self).row as int, old(self).col as int, spec_glyphs(s@)).2,
    {
        let n = s.unicode_len();
        let mut glyphs: Vec<u8> = Vec::new();
        let mut i: usize = 0;
        while i < n
            invariant
                n == s@.len(),
                i <= n,
                glyphs@ == spec_glyphs(s@).subrange(0, i as int),
            decreases n - i,
        {
            let c = s.get_char(i);
            glyphs.push(codepoint_index(c as u32));
            assert(glyphs@ =~= spec_glyphs(s@).subrange(0, i + 1));
            i = i + 1;
        }
        assert(spec_glyphs(s@).subrange(0, n as int) =~= spec_glyphs(s@));
        self.write_glyphs(glyphs.as_slice(), ops);
    }

    /// Print `value` in decimal.
    pub fn print_decimal(&mut self, value: u64, ops: &mut Vec<ConsoleOp>)
        requires
            old(self).wf(),
        ensures
            final(self).wf(),
            final(self).row as int == spec_write_glyphs(
                old(self).row as int,
                old(self).col as int,
                spec_glyphs(spec_digits(value as nat, 10)),
            ).0,
            final(self).col as int == spec_write_glyphs(
                old(self).row as int,
                old(self).col as int,
                spec_glyphs(spec_digits(value as nat, 10)),
            ).1,
            final(ops)@ == old(ops)@ + spec_write_glyphs(
                old(self).row as int,
                old(self).col as int,
                spec_glyphs(spec_digits(value as nat, 10)),
            ).2,
    {
        let s = decimal_string(value);
        self.write_str(s.as_str(), ops);
    }

    /// Print `value` as `0x` and lower-case hex digits.
    pub fn print_hex(&mut self, value: u64, ops: &mut Vec<ConsoleOp>)
        requires
            old(self).wf(),
        ensures
            final(self).wf(),
            final(self).row as int == spec_write_glyphs(
                old(self).row as int,
                old(self).col as int,
                spec_glyphs("0x"@ + spec_digits(value as nat, 16)),
            ).0,
            final(self).col as int == spec_write_glyphs(
                old(self).row as int,
                old(self).col as int,
                spec_glyphs("0x"@ + spec_digits(value as nat, 16)),
            ).1,
            final(ops)@ == old(ops)@ + spec_write_glyphs(
                old(self).row as int,
                old(self).col as int,
                spec_glyphs("0x"@ + spec_digits(value as nat, 16)),
            ).2,
    {
        let mut s = String::from_str("0x");
        s.append(hex_string(value).as_str());
        self.write_str(s.as_str(), ops);
    }

    /// Print the bytes of `s`, each as its own glyph.
    pub fn print_str(&mut self, s: &str, ops: &mut Vec<ConsoleOp>)
        requires
            old(self).wf(),
        ensures
            final(self).wf(),
            final(self).row as int == spec_write_glyphs(old(self).row as int, old(self).col as int, s.spec_bytes()).0,
            final(self).col as int == spec_write_glyphs(old(self).row as int, old(self).col as int, s.spec_bytes()).1,
            final(ops)@ == old(ops)@ + spec_write_glyphs(old(self).row as int, old(self).col as int, s.spec_bytes()).2,
    {
        self.write_glyphs(s.as_bytes(), ops);
    }

    /// The operation that shows (an underscore) or hides the cursor.
    pub fn draw_cursor(&self, visible: bool) -> (op: ConsoleOp)
        ensures
            visible ==> op == (ConsoleOp::Draw { glyph: 95, row: self.row, col: self.col, color: WHITE }),
            !visible ==> op == (ConsoleOp::Draw { glyph: 32, row: self.row, col: self.col, color: BLACK }),
    {
        if visible {
            ConsoleOp::Draw { glyph: 95, row: self.row, col: self.col, color: WHITE }
        } else {
            ConsoleOp::Draw { glyph: 32, row: self.row, col: self.col, color: BLACK }
        }
    }

    /// Home the cursor; the screen is cleared.
    pub fn clear_screen(&mut self) -> (op: ConsoleOp)
        ensures
            final(self).row == 0 && final(self).col == 0,
            op == ConsoleOp::Clear,
    {
        self.row = 0;
        self.col = 0;
        ConsoleOp::Clear
    }
}

/// Console initialisation: the framebuffer renderer needs no set-up, so the
/// console starts with the cursor at the top-left cell.
pub fn init() -> (w: VgaWriter)
    ensures
        w.wf(),
        w.row == 0 && w.col == 0,
{
    VgaWriter::new()
}

} // verus!
