//! Model of the character-cell display: a fixed 25-by-80 text buffer written
//! through a cursor-carrying writer. The writer wraps long lines, scrolls when
//! the last row overflows, and either interprets or prints control bytes.
//!
//! This is the shared resource that both normal context and handler context
//! report through; the memory-mapped twin of [`Buffer`] and the global,
//! lock-protected writer instance live outside the verified library.

use vstd::prelude::*;
use vstd::pervasive::VecAdditionalExecFns;
use vstd::string::StringSliceAdditionalSpecFns;

verus! {

/// The 16 color standard palette in VGA text mode.
#[allow(dead_code)]
#[derive(Debug, Clone, Copy, PartialEq, Eq, Structural)]
pub enum Color {
    Black,
    Blue,
    Green,
    Cyan,
    Red,
    Magenta,
    Brown,
    LightGray,
    DarkGray,
    LightBlue,
    LightGreen,
    LightCyan,
    LightRed,
    Pink,
    Yellow,
    White,
}

impl Color {
    /// The 4-bit palette number of this color.
    pub open spec fn code_spec(self) -> u8 {
        match self {
            Color::Black => 0x0,
            Color::Blue => 0x1,
            Color::Green => 0x2,
            Color::Cyan => 0x3,
            Color::Red => 0x4,
            Color::Magenta => 0x5,
            Color::Brown => 0x6,
            Color::LightGray => 0x7,
            Color::DarkGray => 0x8,
            Color::LightBlue => 0x9,
            Color::LightGreen => 0xA,
            Color::LightCyan => 0xB,
            Color::LightRed => 0xC,
            Color::Pink => 0xD,
            Color::Yellow => 0xE,
            Color::White => 0xF,
        }
    }

    /// The 4-bit palette number of this color.
    pub fn code(self) -> (r: u8)
        ensures
            r == self.code_spec(),
            r < 16,
    {
        match self {
            Color::Black => 0x0,
            Color::Blue => 0x1,
            Color::Green => 0x2,
            Color::Cyan => 0x3,
            Color::Red => 0x4,
            Color::Magenta => 0x5,
            Color::Brown => 0x6,
            Color::LightGray => 0x7,
            Color::DarkGray => 0x8,
            Color::LightBlue => 0x9,
            Color::LightGreen => 0xA,
            Color::LightCyan => 0xB,
            Color::LightRed => 0xC,
            Color::Pink => 0xD,
            Color::Yellow => 0xE,
            Color::White => 0xF,
        }
    }
}

/// A combination of a foreground and background color, packed as the VGA
/// attribute byte: background in the high nibble, foreground in the low one.
#[derive(Debug, Clone, Copy, PartialEq, Eq, Structural)]
pub struct ColorCode(u8);

impl ColorCode {
    /// The packed attribute byte.
    pub closed spec fn val(self) -> u8 {
        self.0
    }

    /// The packed attribute byte.
    pub fn value(self) -> (r: u8)
        ensures
            r == self.val(),
    {
        self.0
    }

    /// The foreground palette number (low nibble).
    pub open spec fn fg(self) -> u8 {
        self.val() & 0x0F
    }

    /// The background palette number (high nibble).
    pub open spec fn bg(self) -> u8 {
        self.val() >> 4
    }

    pub fn new(foreground: Color, background: Color) -> (r: ColorCode)
        ensures
            r.val() == (background.code_spec() << 4) | foreground.code_spec(),
            r.fg() == foreground.code_spec(),
            r.bg() == background.code_spec(),
    {
        let f = foreground.code();
        let b = background.code();
        let v: u8 = (b << 4) | f;
        proof {
            assert(((b << 4) | f) & 0x0F == f && ((b << 4) | f) >> 4 == b) by (bit_vector)
                requires f < 16 && b < 16;
        }
        ColorCode(v)
    }

    pub fn set_foreground(&mut self, color: Color)
        ensures
            final(self).val() == (old(self).val() & 0xF0) | color.code_spec(),
            final(self).fg() == color.code_spec(),
            final(self).bg() == old(self).bg(),
    {
        let c = color.code();
        let v: u8 = (self.0 & !0x0F) | c;
        proof {
            let x = self.0;
            assert(x & !0x0F == x & 0xF0) by (bit_vector);
            assert(((x & 0xF0) | c) & 0x0F == c && ((x & 0xF0) | c) >> 4 == x >> 4)
                by (bit_vector)
                requires c < 16;
        }
        self.0 = v;
    }

    pub fn set_background(&mut self, color: Color)
        ensures
            final(self).val() == (old(self).val() & 0x0F) | (color.code_spec() << 4),
            final(self).bg() == color.code_spec(),
            final(self).fg() == old(self).fg(),
    {
        let c = color.code();
        let v: u8 = (self.0 & !0xF0) | (c << 4);
        proof {
            let x = self.0;
            assert(x & !0xF0 == x & 0x0F) by (bit_vector);
            assert(((x & 0x0F) | (c << 4)) >> 4 == c
                && ((x & 0x0F) | (c << 4)) & 0x0F == x & 0x0F)
                by (bit_vector)
                requires c < 16;
        }
        self.0 = v;
    }
}

/// A text buffer character: an IBM PC code point together with a `ColorCode`.
#[derive(Debug, Clone, Copy, PartialEq, Eq, Structural)]
pub struct ScreenChar {
    pub code_point: u8,
    pub color_code: ColorCode,
}

/// The height of the text buffer (commonly 25 lines).
pub const BUFFER_HEIGHT: usize = 25;

/// The width of the text buffer (commonly 80 columns).
pub const BUFFER_WIDTH: usize = 80;

/// The character grid backing a [`Writer`]. The memory-mapped display region
/// itself cannot be owned by verified code; this model holds the same grid as
/// plain values.
pub struct Buffer {
    chars: Vec<Vec<ScreenChar>>,
}

/// Controls whether a [`Writer`] interprets control character bytes as glyphs.
#[derive(Debug, Clone, Copy, PartialEq, Eq, Structural)]
pub enum ControlCharMode {
    Control,
    Glyph,
}

/// The mathematical state of a writer: the visible character grid, the cursor,
/// the active colors, and the control-character mode.
#[verifier::ext_equal]
pub ghost struct ScreenState {
    pub screen: Seq<Seq<ScreenChar>>,
    pub row: int,
    pub col: int,
    pub color: ColorCode,
    pub mode: ControlCharMode,
}

/// A space in the given colors: what cleared cells hold.
pub open spec fn blank_char(color: ColorCode) -> ScreenChar {
    ScreenChar { code_point: 32, color_code: color }
}

/// A full row of blanks.
pub open spec fn blank_row(color: ColorCode) -> Seq<ScreenChar> {
    Seq::new(BUFFER_WIDTH as nat, |c: int| blank_char(color))
}

/// A grid holding the same character everywhere.
pub open spec fn filled(ch: ScreenChar) -> Seq<Seq<ScreenChar>> {
    Seq::new(BUFFER_HEIGHT as nat, |r: int| Seq::new(BUFFER_WIDTH as nat, |c: int| ch))
}

/// The grid with one cell replaced.
pub open spec fn put(s: Seq<Seq<ScreenChar>>, row: int, col: int, ch: ScreenChar) -> Seq<
    Seq<ScreenChar>,
> {
    s.update(row, s[row].update(col, ch))
}

/// The grid after scrolling up one line: the top row is discarded and a blank
/// row in the given colors appears at the bottom.
pub open spec fn scrolled(s: Seq<Seq<ScreenChar>>, color: ColorCode) -> Seq<Seq<ScreenChar>> {
    s.subrange(1, BUFFER_HEIGHT as int).push(blank_row(color))
}

/// Advancing one line: below the last row the cursor just moves down; on the
/// last row the grid scrolls instead. The column returns to the left edge.
pub open spec fn spec_new_line(s: ScreenState) -> ScreenState {
    if s.row < BUFFER_HEIGHT - 1 {
        ScreenState { row: s.row + 1, col: 0, ..s }
    } else {
        ScreenState { row: BUFFER_HEIGHT - 1, col: 0, screen: scrolled(s.screen, s.color), ..s }
    }
}

/// Printing one glyph at the cursor: wraps to a fresh line first when the
/// cursor rests past the last column, then writes and advances the cursor.
pub open spec fn spec_glyph(s: ScreenState, byte: u8) -> ScreenState {
    let t = if s.col >= BUFFER_WIDTH {
        spec_new_line(s)
    } else {
        s
    };
    ScreenState {
        screen: put(t.screen, t.row, t.col, ScreenChar { code_point: byte, color_code: t.color }),
        col: t.col + 1,
        ..t
    }
}

/// One byte written: in `Control` mode a tab prints a single space, a line
/// feed advances a line, and a carriage return moves to the left edge; every
/// other byte, and every byte in `Glyph` mode, prints as a glyph.
pub open spec fn spec_write_byte(s: ScreenState, byte: u8) -> ScreenState {
    if s.mode == ControlCharMode::Control && byte == 9 {
        spec_glyph(s, 32)
    } else if s.mode == ControlCharMode::Control && byte == 10 {
        spec_new_line(s)
    } else if s.mode == ControlCharMode::Control && byte == 13 {
        ScreenState { col: 0, ..s }
    } else {
        spec_glyph(s, byte)
    }
}

/// A byte sequence written left to right.
pub open spec fn spec_write_bytes(s: ScreenState, bytes: Seq<u8>) -> ScreenState
    decreases bytes.len(),
{
    if bytes.len() == 0 {
        s
    } else {
        spec_write_bytes(spec_write_byte(s, bytes[0]), bytes.drop_first())
    }
}

/// Writing a byte sequence and then one more byte equals writing the extended
/// sequence.
pub proof fn lemma_write_bytes_snoc(s: ScreenState, bytes: Seq<u8>)
    requires
        bytes.len() > 0,
    ensures
        spec_write_bytes(s, bytes) == spec_write_byte(
            spec_write_bytes(s, bytes.drop_last()),
            bytes.last(),
        ),
    decreases bytes.len(),
{
    if bytes.len() == 1 {
        assert(bytes.drop_last() =~= Seq::<u8>::empty());
        assert(bytes.drop_first() =~= Seq::<u8>::empty());
    } else {
        lemma_write_bytes_snoc(spec_write_byte(s, bytes[0]), bytes.drop_first());
        assert(bytes.drop_first().drop_last() =~= bytes.drop_last().drop_first());
        assert(bytes.drop_last()[0] == bytes[0]);
        assert(bytes.drop_first().last() == bytes.last());
    }
}

/// The first `j` glyphs of row `i` of the character-set block written in
/// glyph mode: code points `i * 16` through `i * 16 + j - 1`.
pub open spec fn spec_glyph_row(s: ScreenState, i: int, j: int) -> ScreenState
    decreases j,
{
    if j <= 0 {
        s
    } else {
        spec_glyph(spec_glyph_row(s, i, j - 1), (i * 16 + (j - 1)) as u8)
    }
}

/// The first `i` full rows of the character-set block, each sixteen glyphs
/// followed by a line advance.
pub open spec fn spec_charset_rows(s: ScreenState, i: int) -> ScreenState
    decreases i,
{
    if i <= 0 {
        s
    } else {
        spec_new_line(spec_glyph_row(spec_charset_rows(s, i - 1), i - 1, 16))
    }
}

/// The whole character-set block: printed in glyph mode, on a fresh line,
/// with the caller's control-character mode restored afterwards.
pub open spec fn spec_charset(s: ScreenState) -> ScreenState {
    let g = ScreenState { mode: ControlCharMode::Glyph, ..s };
    let h = if g.col > 0 {
        spec_new_line(g)
    } else {
        g
    };
    ScreenState { mode: s.mode, ..spec_charset_rows(h, 16) }
}

/// A writer over the character grid: tracks the cursor, the active colors,
/// and whether control bytes act or print.
///
/// Wraps lines at [`BUFFER_WIDTH`] and scrolls on overflow of the last row.
pub struct Writer {
    row_position: usize,
    column_position: usize,
    color_code: ColorCode,
    control_char_mode: ControlCharMode,
    buffer: Buffer,
}

impl Writer {
    /// The abstract screen state this writer is in.
    pub closed spec fn abs(self) -> ScreenState {
        ScreenState {
            screen: self.buffer.chars@.map_values(|v: Vec<ScreenChar>| v@),
            row: self.row_position as int,
            col: self.column_position as int,
            color: self.color_code,
            mode: self.control_char_mode,
        }
    }

    /// The representation invariant: grid dimensions and cursor bounds. The
    /// column may rest one past the last cell; the next glyph wraps first.
    pub closed spec fn wf(self) -> bool {
        &&& self.buffer.chars@.len() == BUFFER_HEIGHT
        &&& forall|r: int|
            0 <= r < BUFFER_HEIGHT ==> (#[trigger] self.buffer.chars@[r])@.len() == BUFFER_WIDTH
        &&& self.row_position < BUFFER_HEIGHT
        &&& self.column_position <= BUFFER_WIDTH
    }

    /// A fresh writer: cursor at the upper left, light gray on black,
    /// control bytes interpreted, grid blank.
    pub fn new() -> (w: Writer)
        ensures
            w.wf(),
            w.abs().row == 0,
            w.abs().col == 0,
            w.abs().mode == ControlCharMode::Control,
            w.abs().color.fg() == Color::LightGray.code_spec(),
            w.abs().color.bg() == Color::Black.code_spec(),
            w.abs().screen == filled(blank_char(w.abs().color)),
    {
        let color_code = ColorCode::new(Color::LightGray, Color::Black);
        let blank = ScreenChar { code_point: 32, color_code };
        let mut chars: Vec<Vec<ScreenChar>> = Vec::new();
        for r in 0..BUFFER_HEIGHT
            invariant
                chars@.len() == r,
                forall|i: int|
                    0 <= i < r ==> (#[trigger] chars@[i])@ == Seq::new(
                        BUFFER_WIDTH as nat,
                        |c: int| blank,
                    ),
        {
            let mut row: Vec<ScreenChar> = Vec::new();
            for c in 0..BUFFER_WIDTH
                invariant
                    row@.len() == c,
                    forall|j: int| 0 <= j < c ==> row@[j] == blank,
            {
                row.push(blank);
            }
            proof {
                assert(row@ =~= Seq::new(BUFFER_WIDTH as nat, |c: int| blank));
            }
            chars.push(row);
        }
        let w = Writer {
            row_position: 0,
            column_position: 0,
            color_code,
            control_char_mode: ControlCharMode::Control,
            buffer: Buffer { chars },
        };
        proof {
            assert(w.abs().screen =~~= filled(blank_char(color_code)));
        }
        w
    }

    /// The current cursor row.
    pub fn row_position(&self) -> (r: usize)
        ensures
            r == self.abs().row,
    {
        self.row_position
    }

    /// The current cursor column.
    pub fn column_position(&self) -> (r: usize)
        ensures
            r == self.abs().col,
    {
        self.column_position
    }

    /// The character shown at one cell of the grid.
    pub fn char_at(&self, row: usize, col: usize) -> (ch: ScreenChar)
        requires
            self.wf(),
            row < BUFFER_HEIGHT,
            col < BUFFER_WIDTH,
        ensures
            ch == self.abs().screen[row as int][col as int],
    {
        self.buffer.chars[row][col]
    }

    /// Sets whether control character bytes are interpreted as glyphs.
    pub fn set_control_mode(&mut self, control_char_mode: ControlCharMode)
        requires
            old(self).wf(),
        ensures
            final(self).wf(),
            final(self).abs() == (ScreenState { mode: control_char_mode, ..old(self).abs() }),
    {
        self.control_char_mode = control_char_mode;
    }

    /// Sets the active `Color`s.
    pub fn set_color(&mut self, foreground: Color, background: Color)
        requires
            old(self).wf(),
        ensures
            final(self).wf(),
            final(self).abs().fields_except_color_eq(old(self).abs()),
            final(self).abs().color.fg() == foreground.code_spec(),
            final(self).abs().color.bg() == background.code_spec(),
    {
        self.color_code = ColorCode::new(foreground, background);
    }

    /// Sets the active foreground `Color`.
    pub fn set_fg_color(&mut self, color: Color)
        requires
            old(self).wf(),
        ensures
            final(self).wf(),
            final(self).abs().fields_except_color_eq(old(self).abs()),
            final(self).abs().color.fg() == color.code_spec(),
            final(self).abs().color.bg() == old(self).abs().color.bg(),
    {
        self.color_code.set_foreground(color);
    }

    /// Sets the active background `Color`.
    pub fn set_bg_color(&mut self, color: Color)
        requires
            old(self).wf(),
        ensures
            final(self).wf(),
            final(self).abs().fields_except_color_eq(old(self).abs()),
            final(self).abs().color.bg() == color.code_spec(),
            final(self).abs().color.fg() == old(self).abs().color.fg(),
    {
        self.color_code.set_background(color);
    }

    /// Replaces one cell of the grid.
    fn put_char(&mut self, row: usize, col: usize, ch: ScreenChar)
        requires
            old(self).wf(),
            row < BUFFER_HEIGHT,
            col < BUFFER_WIDTH,
        ensures
            final(self).wf(),
            final(self).abs() == (ScreenState {
                screen: put(old(self).abs().screen, row as int, col as int, ch),
                ..old(self).abs()
            }),
    {
        let row_ref = &mut self.buffer.chars[row];
        row_ref.set(col, ch);
        proof {
            assert(self.abs().screen =~~= put(
                old(self).abs().screen,
                row as int,
                col as int,
                ch,
            ));
        }
    }

    /// Advances one line: moves the cursor down, or scrolls on the last row,
    /// and returns to the first column.
    fn new_line(&mut self)
        requires
            old(self).wf(),
        ensures
            final(self).wf(),
            final(self).abs() == spec_new_line(old(self).abs()),
    {
        if self.row_position >= BUFFER_HEIGHT - 1 {
            self.buffer.chars.remove(0);
            let blank = ScreenChar { code_point: 32, color_code: self.color_code };
            let mut row: Vec<ScreenChar> = Vec::new();
            for c in 0..BUFFER_WIDTH
                invariant
                    row@.len() == c,
                    forall|j: int| 0 <= j < c ==> row@[j] == blank,
            {
                row.push(blank);
            }
            proof {
                assert(row@ =~= blank_row(self.color_code));
            }
            self.buffer.chars.push(row);
            proof {
                assert(self.abs().screen =~~= scrolled(
                    old(self).abs().screen,
                    old(self).color_code,
                ));
            }
        } else {
            self.row_position += 1;
        }
        self.column_position = 0;
    }

    /// Prints one glyph at the cursor, wrapping first when needed.
    fn glyph(&mut self, byte: u8)
        requires
            old(self).wf(),
        ensures
            final(self).wf(),
            final(self).abs() == spec_glyph(old(self).abs(), byte),
    {
        if self.column_position >= BUFFER_WIDTH {
            self.new_line();
        }
        let row = self.row_position;
        let col = self.column_position;
        let color_code = self.color_code;
        self.put_char(row, col, ScreenChar { code_point: byte, color_code });
        self.column_position = col + 1;
    }

    /// Interprets one control byte, reporting whether it acted.
    ///
    /// Tab prints a single space, line feed advances a line, carriage return
    /// moves to the left edge; anything else is left for glyph printing.
    fn handle_control_char(&mut self, byte: u8) -> (handled: bool)
        requires
            old(self).wf(),
            old(self).abs().mode == ControlCharMode::Control,
        ensures
            final(self).wf(),
            handled == (byte == 9 || byte == 10 || byte == 13),
            handled ==> final(self).abs() == spec_write_byte(old(self).abs(), byte),
            !handled ==> *final(self) == *old(self),
    {
        match byte {
            9 => {
                self.glyph(32);
                true
            },
            10 => {
                self.new_line();
                true
            },
            13 => {
                self.column_position = 0;
                proof {
                    assert(self.abs() =~~= (ScreenState { col: 0, ..old(self).abs() }));
                }
                true
            },
            _ => false,
        }
    }

    /// Writes a byte to the buffer.
    ///
    /// Wraps lines at [`BUFFER_WIDTH`]. The behavior regarding tab, line feed
    /// and carriage return is controlled through [`Writer::set_control_mode`].
    pub fn write_byte(&mut self, byte: u8)
        requires
            old(self).wf(),
        ensures
            final(self).wf(),
            final(self).abs() == spec_write_byte(old(self).abs(), byte),
    {
        if matches!(self.control_char_mode, ControlCharMode::Control) {
            if self.handle_control_char(byte) {
                return ;
            }
        }
        self.glyph(byte);
    }

    /// Writes a string to the buffer byte by byte, assuming the IBM PC
    /// character set for its code points.
    pub fn write_string(&mut self, s: &str)
        requires
            old(self).wf(),
        ensures
            final(self).wf(),
            final(self).abs() == spec_write_bytes(old(self).abs(), s.spec_bytes()),
    {
        let bytes = s.as_bytes();
        for i in 0..bytes.len()
            invariant
                self.wf(),
                bytes@ == s.spec_bytes(),
                self.abs() == spec_write_bytes(old(self).abs(), bytes@.take(i as int)),
        {
            let ghost prefix = bytes@.take(i as int);
            self.write_byte(bytes[i]);
            proof {
                let next = bytes@.take(i + 1 as int);
                assert(next.drop_last() =~= prefix);
                assert(next.last() == bytes@[i as int]);
                lemma_write_bytes_snoc(old(self).abs(), next);
            }
        }
        proof {
            assert(bytes@.take(bytes@.len() as int) =~= s.spec_bytes());
        }
    }

    /// Writes a string and then advances one line: the model of printing one
    /// full output line.
    pub fn write_line(&mut self, s: &str)
        requires
            old(self).wf(),
        ensures
            final(self).wf(),
            final(self).abs() == spec_new_line(
                spec_write_bytes(old(self).abs(), s.spec_bytes()),
            ),
    {
        self.write_string(s);
        self.new_line();
    }

    /// Outputs the full IBM PC character set as a 16 by 16 block, glyph by
    /// glyph, starting on a fresh line.
    ///
    /// Disregards but preserves the current [`ControlCharMode`], so the
    /// control bytes among the 256 code points print as glyphs too.
    pub fn print_character_set(&mut self)
        requires
            old(self).wf(),
        ensures
            final(self).wf(),
            final(self).abs() == spec_charset(old(self).abs()),
    {
        let ccmode_save = self.control_char_mode;
        self.control_char_mode = ControlCharMode::Glyph;
        proof {
            assert(self.abs() =~~= (ScreenState {
                mode: ControlCharMode::Glyph,
                ..old(self).abs()
            }));
        }
        if self.column_position > 0 {
            self.new_line();
        }
        let ghost start = self.abs();
        for i in 0..16u8
            invariant
                self.wf(),
                self.abs() == spec_charset_rows(start, i as int),
        {
            for j in 0..16u8
                invariant
                    i < 16,
                    self.wf(),
                    self.abs() == spec_glyph_row(spec_charset_rows(start, i as int), i as int,
                        j as int),
            {
                self.glyph(i * 16 + j);
            }
            self.new_line();
        }
        self.control_char_mode = ccmode_save;
        proof {
            assert(self.abs() =~~= spec_charset(old(self).abs()));
        }
    }

    /// Fills the whole grid with one character.
    fn fill(&mut self, character: ScreenChar)
        requires
            old(self).wf(),
        ensures
            final(self).wf(),
            final(self).abs() == (ScreenState { screen: filled(character), ..old(self).abs() }),
    {
        for r in 0..BUFFER_HEIGHT
            invariant
                self.wf(),
                self.row_position == old(self).row_position,
                self.column_position == old(self).column_position,
                self.color_code == old(self).color_code,
                self.control_char_mode == old(self).control_char_mode,
                forall|i: int| 0 <= i < r ==> self.abs().screen[i] == filled(character)[i],
                forall|i: int|
                    r <= i < BUFFER_HEIGHT ==> self.abs().screen[i] == old(self).abs().screen[i],
        {
            let mut row: Vec<ScreenChar> = Vec::new();
            for c in 0..BUFFER_WIDTH
                invariant
                    row@.len() == c,
                    forall|j: int| 0 <= j < c ==> row@[j] == character,
            {
                row.push(character);
            }
            proof {
                assert(row@ =~= Seq::new(BUFFER_WIDTH as nat, |c: int| character));
            }
            self.buffer.chars.set(r, row);
        }
        proof {
            assert(self.abs().screen =~~= filled(character));
            assert(self.abs() =~~= (ScreenState {
                screen: filled(character),
                ..old(self).abs()
            }));
        }
    }

    /// Clears the grid with the current background color and places the
    /// cursor at the upper left corner.
    pub fn clear(&mut self)
        requires
            old(self).wf(),
        ensures
            final(self).wf(),
            final(self).abs() == (ScreenState {
                screen: filled(blank_char(old(self).abs().color)),
                row: 0,
                col: 0,
                ..old(self).abs()
            }),
    {
        let blank = ScreenChar { code_point: 32, color_code: self.color_code };
        self.fill(blank);
        self.row_position = 0;
        self.column_position = 0;
    }
}

impl ScreenState {
    /// All fields but the color agree with `other`'s.
    pub open spec fn fields_except_color_eq(self, other: ScreenState) -> bool {
        &&& self.screen == other.screen
        &&& self.row == other.row
        &&& self.col == other.col
        &&& self.mode == other.mode
    }
}

} // verus!
