//! The character grid of a virtual terminal: what is written where, how the
//! cursor moves and how the screen scrolls. Drawing is left to the renderer.
use vstd::prelude::*;

verus! {

/// A 16-color ANSI color, the colors of the traditional VGA text mode.
#[derive(Debug, Clone, Copy, PartialEq, Eq, Structural, PartialOrd, Ord, Hash)]
pub enum AnsiColor16 {
    Black,
    Blue,
    Green,
    Cyan,
    Red,
    Magenta,
    Brown,
    LightGray,
    Gray,
    LightBlue,
    LightGreen,
    LightCyan,
    LightRed,
    LightMagenta,
    Yellow,
    White,
}

/// The effects applied to a character (bold, italic, underline...), one bit per
/// effect. No effect is implemented yet.
#[derive(Debug, Clone, Copy, PartialEq, Eq, Structural, Hash)]
pub struct CharEffects(u8);

impl CharEffects {
    /// No effect.
    pub closed spec fn spec_empty() -> CharEffects {
        CharEffects(0)
    }

    /// The bits of the effects.
    pub closed spec fn spec_bits(self) -> u8 {
        self.0
    }

    /// No effect.
    pub fn empty() -> (r: CharEffects)
        ensures
            r == Self::spec_empty(),
            r.spec_bits() == 0,
    {
        CharEffects(0)
    }

    /// The bits of the effects.
    pub fn bits(self) -> (r: u8)
        ensures
            r == self.spec_bits(),
    {
        self.0
    }
}

/// The style of a character on the screen.
#[derive(Debug, Clone, Copy, PartialEq, Eq, Structural, Hash)]
pub struct CharStyle {
    /// The foreground color of the character.
    pub foreground: AnsiColor16,
    /// The background color of the character.
    pub background: AnsiColor16,
    /// The effects applied to the character.
    pub effects: CharEffects,
}

/// A character on the screen, with its style.
#[derive(Debug, Clone, Copy, PartialEq, Eq, Structural, Hash)]
pub struct Character {
    /// The character to display.
    pub value: char,
    /// The style of the character.
    pub style: CharStyle,
}

impl Character {
    /// A space with the given style: an empty cell.
    pub open spec fn spec_space(style: CharStyle) -> Character {
        Character { value: ' ', style }
    }

    /// Creates a space character with the given style, to display an empty cell
    /// or as a placeholder.
    pub fn space(style: CharStyle) -> (r: Self)
        ensures
            r == Self::spec_space(style),
    {
        Self { value: ' ', style }
    }
}

/// A position on the screen, in characters.
#[derive(Debug, Clone, Copy, PartialEq, Eq, Structural, PartialOrd, Ord, Hash)]
pub struct Position {
    pub x: usize,
    pub y: usize,
}

/// The state of a terminal grid.
pub ghost struct GridView {
    /// The characters, line by line.
    pub cells: Seq<Character>,
    /// The position where the next character is written.
    pub cursor: Position,
    /// The number of characters per line.
    pub width: nat,
    /// The number of lines.
    pub height: nat,
    /// The foreground color of written characters.
    pub foreground: AnsiColor16,
    /// The background color of written characters.
    pub background: AnsiColor16,
}

impl GridView {
    /// The style of written characters.
    pub open spec fn style(self) -> CharStyle {
        CharStyle {
            foreground: self.foreground,
            background: self.background,
            effects: CharEffects::spec_empty(),
        }
    }

    /// The index of the cell at position `p`.
    pub open spec fn index_of(self, p: Position) -> int {
        p.y * self.width + p.x
    }

    /// The grid is not empty, its sizes fit in a `usize`, it holds one cell per
    /// position and the cursor is on the screen.
    pub open spec fn is_valid(self) -> bool {
        &&& 0 < self.width <= usize::MAX
        &&& 0 < self.height <= usize::MAX
        &&& self.cells.len() == self.width * self.height
        &&& self.cursor.x < self.width
        &&& self.cursor.y < self.height
    }

    /// The grid after writing `c`: a line feed moves the cursor to the start of
    /// the next line, a carriage return to the start of the current line, any
    /// other character is stored at the cursor, which moves right. A cursor past
    /// the end of a line moves to the start of the next one, and a cursor below
    /// the last line scrolls the screen up by one line, the new last line being
    /// blank.
    pub open spec fn after_write(self, c: char) -> GridView {
        let moved = if c == '\n' {
            GridView { cursor: Position { x: 0, y: (self.cursor.y + 1) as usize }, ..self }
        } else if c == '\r' {
            GridView { cursor: Position { x: 0, y: self.cursor.y }, ..self }
        } else {
            GridView {
                cells: self.cells.update(
                    self.index_of(self.cursor),
                    Character { value: c, style: self.style() },
                ),
                cursor: Position { x: (self.cursor.x + 1) as usize, y: self.cursor.y },
                ..self
            }
        };
        let wrapped = if moved.cursor.x >= self.width {
            GridView { cursor: Position { x: 0, y: (moved.cursor.y + 1) as usize }, ..moved }
        } else {
            moved
        };
        if wrapped.cursor.y >= self.height {
            GridView {
                cells: wrapped.cells.subrange(self.width as int, wrapped.cells.len() as int)
                    + Seq::new(self.width, |i: int| Character::spec_space(self.style())),
                cursor: Position { x: wrapped.cursor.x, y: (self.height - 1) as usize },
                ..wrapped
            }
        } else {
            wrapped
        }
    }

    /// Writing `c` scrolls the screen.
    pub open spec fn write_scrolls(self, c: char) -> bool {
        let y = if c == '\n' {
            self.cursor.y + 1
        } else if c == '\r' {
            self.cursor.y as int
        } else if self.cursor.x + 1 >= self.width {
            self.cursor.y + 1
        } else {
            self.cursor.y as int
        };
        y >= self.height
    }

    /// The cursor is at the start of the first line: there is nothing before
    /// it to erase.
    pub open spec fn at_origin(self) -> bool {
        self.cursor.x == 0 && self.cursor.y == 0
    }

    /// The grid after erasing the character before the cursor: the cursor moves
    /// back by one character, to the end of the previous line from the start of
    /// a line, and the cell it lands on becomes a blank. At the start of the
    /// first line nothing changes.
    pub open spec fn after_erase(self) -> GridView {
        if self.at_origin() {
            self
        } else {
            let cursor = if self.cursor.x == 0 {
                Position { x: (self.width - 1) as usize, y: (self.cursor.y - 1) as usize }
            } else {
                Position { x: (self.cursor.x - 1) as usize, y: self.cursor.y }
            };
            GridView {
                cells: self.cells.update(
                    cursor.y * self.width + cursor.x,
                    Character::spec_space(self.style()),
                ),
                cursor,
                ..self
            }
        }
    }
}

/// What the renderer must do after a character is written: draw a character at
/// a position (before any scrolling), and redraw the whole screen when it
/// scrolled.
#[derive(Debug, Clone, Copy, PartialEq, Eq)]
pub struct WriteEffects {
    pub drawn: Option<(Position, Character)>,
    pub scrolled: bool,
}

/// The character grid of a virtual terminal.
pub struct TerminalGrid {
    characters: Vec<Character>,
    cursor: Position,
    width: usize,
    height: usize,
    char_foreground: AnsiColor16,
    char_background: AnsiColor16,
}

proof fn lemma_cell_index(x: int, y: int, w: int, h: int)
    requires
        0 <= x < w,
        0 <= y < h,
    ensures
        0 <= y * w + x < w * h,
        y * w + w <= w * h,
{
    vstd::arithmetic::mul::lemma_mul_inequality(y + 1, h, w);
    assert(y * w + w == (y + 1) * w) by (nonlinear_arith);
    vstd::arithmetic::mul::lemma_mul_is_commutative(w, h);
    vstd::arithmetic::mul::lemma_mul_nonnegative(y, w);
}

impl View for TerminalGrid {
    type V = GridView;

    closed spec fn view(&self) -> GridView {
        GridView {
            cells: self.characters@,
            cursor: self.cursor,
            width: self.width as nat,
            height: self.height as nat,
            foreground: self.char_foreground,
            background: self.char_background,
        }
    }
}

impl TerminalGrid {
    /// Creates a grid of `width` characters per line and `height` lines, filled
    /// with blanks, the cursor at the top left corner, writing white on black.
    /// A grid without lines or columns holds no cell: nothing can be written
    /// to it.
    pub fn new(width: usize, height: usize) -> (r: Self)
        requires
            width * height <= usize::MAX,
        ensures
            r@.is_valid() <==> width > 0 && height > 0,
            r@.width == width,
            r@.height == height,
            r@.cursor == (Position { x: 0, y: 0 }),
            r@.foreground == AnsiColor16::White,
            r@.background == AnsiColor16::Black,
            r@.cells == Seq::new((width * height) as nat, |i: int| Character::spec_space(r@.style())),
    {
        let style = CharStyle {
            foreground: AnsiColor16::White,
            background: AnsiColor16::Black,
            effects: CharEffects::empty(),
        };
        let count = width * height;
        let mut characters: Vec<Character> = Vec::new();
        let mut i: usize = 0;
        while i < count
            invariant
                i <= count,
                characters@ == Seq::new(i as nat, |k: int| Character::spec_space(style)),
            decreases count - i,
        {
            characters.push(Character::space(style));
            i = i + 1;
        }
        TerminalGrid {
            characters,
            cursor: Position { x: 0, y: 0 },
            width,
            height,
            char_foreground: AnsiColor16::White,
            char_background: AnsiColor16::Black,
        }
    }

    /// The position of the cursor.
    pub fn cursor(&self) -> (r: Position)
        ensures
            r == self@.cursor,
    {
        self.cursor
    }

    /// The number of characters per line.
    pub fn width(&self) -> (r: usize)
        ensures
            r == self@.width,
    {
        self.width
    }

    /// The number of lines.
    pub fn height(&self) -> (r: usize)
        ensures
            r == self@.height,
    {
        self.height
    }

    /// The characters of the grid, line by line.
    pub fn characters(&self) -> (r: &Vec<Character>)
        ensures
            r@ == self@.cells,
    {
        &self.characters
    }

    /// The position of cell `index` on the screen.
    pub fn position_of(&self, index: usize) -> (r: Position)
        requires
            self@.is_valid(),
        ensures
            r.x == index as nat % self@.width,
            r.y == index as nat / self@.width,
    {
        Position { x: index % self.width, y: index / self.width }
    }

    /// The style of written characters.
    fn style(&self) -> (r: CharStyle)
        ensures
            r == self@.style(),
    {
        CharStyle {
            foreground: self.char_foreground,
            background: self.char_background,
            effects: CharEffects::empty(),
        }
    }

    /// Moves every line up by one and fills the last line with blanks.
    fn scroll(&mut self)
        requires
            old(self)@.width > 0,
            old(self)@.height > 0,
            old(self)@.cells.len() == old(self)@.width * old(self)@.height,
        ensures
            final(self)@ == (GridView {
                cells: old(self)@.cells.subrange(old(self)@.width as int, old(self)@.cells.len() as int)
                    + Seq::new(old(self)@.width, |i: int| Character::spec_space(old(self)@.style())),
                ..old(self)@
            }),
    {
        let ghost old_cells = self.characters@;
        let width = self.width;
        let len = self.characters.len();
        proof {
            lemma_cell_index(0, (self.height - 1) as int, width as int, self.height as int);
        }
        let kept = len - width;
        let mut k: usize = 0;
        while k < kept
            invariant
                self.width == width,
                self.height == old(self).height,
                self.cursor == old(self).cursor,
                self.char_foreground == old(self).char_foreground,
                self.char_background == old(self).char_background,
                len == old_cells.len(),
                kept + width == len,
                k <= kept,
                self.characters@.len() == len,
                forall|i: int| 0 <= i < k ==> self.characters@[i] == old_cells[i + width],
                forall|i: int| k <= i < len ==> self.characters@[i] == old_cells[i],
            decreases kept - k,
        {
            let moved = self.characters[k + width];
            self.characters.set(k, moved);
            k = k + 1;
        }
        self.characters.truncate(kept);
        let style = self.style();
        let mut n: usize = 0;
        while n < width
            invariant
                self.width == width,
                self.height == old(self).height,
                self.cursor == old(self).cursor,
                self.char_foreground == old(self).char_foreground,
                self.char_background == old(self).char_background,
                style == old(self)@.style(),
                n <= width,
                self.characters@.len() == kept + n,
                forall|i: int| 0 <= i < kept ==> self.characters@[i] == old_cells[i + width],
                forall|i: int| kept <= i < kept + n ==> self.characters@[i] == Character::spec_space(style),
            decreases width - n,
        {
            self.characters.push(Character::space(style));
            n = n + 1;
        }
        assert(self.characters@ =~= old_cells.subrange(width as int, len as int) + Seq::new(
            width as nat,
            |i: int| Character::spec_space(style),
        ));
    }

    /// Writes a character: a line feed or a carriage return moves the cursor,
    /// any other character is stored at the cursor and the cursor moves right;
    /// the cursor wraps at the end of a line and the screen scrolls below the
    /// last line. Returns what the renderer must draw.
    pub fn write(&mut self, character: char) -> (r: WriteEffects)
        requires
            old(self)@.is_valid(),
        ensures
            final(self)@ == old(self)@.after_write(character),
            final(self)@.is_valid(),
            r.drawn == (if character == '\n' || character == '\r' {
                None
            } else {
                Some((old(self)@.cursor, Character { value: character, style: old(self)@.style() }))
            }),
            r.scrolled == old(self)@.write_scrolls(character),
    {
        let mut drawn: Option<(Position, Character)> = None;
        if character == '\n' {
            self.cursor.y = self.cursor.y + 1;
            self.cursor.x = 0;
        } else if character == '\r' {
            self.cursor.x = 0;
        } else {
            let written = Character { value: character, style: self.style() };
            let position = Position { x: self.cursor.x, y: self.cursor.y };
            drawn = Some((position, written));
            proof {
                lemma_cell_index(
                    self.cursor.x as int,
                    self.cursor.y as int,
                    self.width as int,
                    self.height as int,
                );
            }
            let _len = self.characters.len();
            let index = self.cursor.y * self.width + self.cursor.x;
            self.characters.set(index, written);
            self.cursor.x = self.cursor.x + 1;
        }
        if self.cursor.x >= self.width {
            self.cursor.y = self.cursor.y + 1;
            self.cursor.x = 0;
        }
        let mut scrolled = false;
        if self.cursor.y >= self.height {
            self.scroll();
            self.cursor.y = self.height - 1;
            scrolled = true;
        }
        proof {
            lemma_cell_index(0, (self.height - 1) as int, self.width as int, self.height as int);
            assert(self@ =~= old(self)@.after_write(character));
        }
        WriteEffects { drawn, scrolled }
    }

    /// Erases the character just before the cursor and moves the cursor onto
    /// it: from the start of a line, to the end of the previous line. Returns
    /// the position and the blank the renderer must draw. At the start of the
    /// first line nothing happens, and `None` is returned.
    pub fn erase_char(&mut self) -> (r: Option<(Position, Character)>)
        requires
            old(self)@.is_valid(),
        ensures
            final(self)@ == old(self)@.after_erase(),
            final(self)@.is_valid(),
            r == (if old(self)@.at_origin() {
                None
            } else {
                Some((final(self)@.cursor, Character::spec_space(old(self)@.style())))
            }),
    {
        if self.cursor.x == 0 {
            if self.cursor.y == 0 {
                return None;
            }
            self.cursor.y = self.cursor.y - 1;
            self.cursor.x = self.width - 1;
        } else {
            self.cursor.x = self.cursor.x - 1;
        }
        proof {
            lemma_cell_index(
                self.cursor.x as int,
                self.cursor.y as int,
                self.width as int,
                self.height as int,
            );
        }
        let _len = self.characters.len();
        let index = self.cursor.y * self.width + self.cursor.x;
        let blank = Character::space(self.style());
        self.characters.set(index, blank);
        proof {
            assert(self@ =~= old(self)@.after_erase());
        }
        Some((self.cursor, blank))
    }
}

/// Erasing right after writing a character that did not scroll the screen
/// puts the cursor back where it was and blanks the written cell, also when
/// the write wrapped to the next line.
pub proof fn lemma_write_then_erase(g: GridView, c: char)
    requires
        g.is_valid(),
        c != '\n',
        c != '\r',
        !g.write_scrolls(c),
    ensures
        g.after_write(c).after_erase().cursor == g.cursor,
        g.after_write(c).after_erase().cells == g.cells.update(
            g.index_of(g.cursor),
            Character::spec_space(g.style()),
        ),
{
    let w = g.after_write(c);
    let e = w.after_erase();
    let x = g.cursor.x;
    let y = g.cursor.y;
    let written = g.cells.update(g.index_of(g.cursor), Character { value: c, style: g.style() });
    assert(w.width == g.width && w.style() == g.style());
    assert(w.cells == written);
    if x + 1 < g.width {
        assert(w.cursor == Position { x: (x + 1) as usize, y });
    } else {
        assert(x + 1 == g.width);
        assert(w.cursor == Position { x: 0, y: (y + 1) as usize });
    }
    assert(e.cursor == g.cursor);
    lemma_cell_index(x as int, y as int, g.width as int, g.height as int);
    assert(e.cells == written.update(g.index_of(g.cursor), Character::spec_space(g.style())));
    assert(e.cells =~= g.cells.update(g.index_of(g.cursor), Character::spec_space(g.style())));
}

/// What reading a line does with one event of the input stream.
#[derive(Debug, Clone, Copy, PartialEq, Eq, Structural)]
pub enum ReadStep {
    /// A backspace removed the last character of the line: erase it from the
    /// screen.
    Erase,
    /// A backspace on an empty line: nothing to erase.
    Ignore,
    /// The character was added to the line: echo it.
    Echo(char),
    /// A line feed: echo it, the line is complete.
    EchoEnd,
    /// The input failed: the line is complete as it is.
    End,
    /// The input is exhausted, which reading a line does not handle.
    EndOfInput,
}

/// The backspace character.
pub open spec fn backspace() -> char {
    '\u{8}'
}

/// What reading a line does with `input`, and the line afterwards.
pub open spec fn read_step(line: Seq<char>, input: Option<Result<char, ()>>) -> (ReadStep, Seq<char>) {
    match input {
        None => (ReadStep::EndOfInput, line),
        Some(Err(_)) => (ReadStep::End, line),
        Some(Ok(c)) => if c == backspace() {
            if line.len() > 0 {
                (ReadStep::Erase, line.drop_last())
            } else {
                (ReadStep::Ignore, line)
            }
        } else if c == '\n' {
            (ReadStep::EchoEnd, line)
        } else {
            (ReadStep::Echo(c), line.push(c))
        },
    }
}

/// Handles one event of the input while reading a line: a backspace removes
/// the last character, if any; a line feed completes the line, any other
/// character is added to it; a failed input completes the line as it is.
pub fn readline_step(line: &mut Vec<char>, input: Option<Result<char, ()>>) -> (r: ReadStep)
    ensures
        (r, final(line)@) == read_step(old(line)@, input),
{
    match input {
        None => ReadStep::EndOfInput,
        Some(Err(_)) => ReadStep::End,
        Some(Ok(c)) => {
            if c == '\u{8}' {
                match line.pop() {
                    Some(_) => ReadStep::Erase,
                    None => ReadStep::Ignore,
                }
            } else if c == '\n' {
                ReadStep::EchoEnd
            } else {
                line.push(c);
                ReadStep::Echo(c)
            }
        },
    }
}

/// A line being read never holds a line feed or a backspace: each step keeps
/// it so.
pub proof fn lemma_line_has_no_control(line: Seq<char>, input: Option<Result<char, ()>>)
    requires
        forall|k: int| 0 <= k < line.len() ==> line[k] != '\n' && line[k] != backspace(),
    ensures
        ({
            let after = read_step(line, input).1;
            forall|k: int| 0 <= k < after.len() ==> after[k] != '\n' && after[k] != backspace()
        }),
{
}

/// The line after typing `chars` one by one, starting from `line`.
pub open spec fn typed_line(line: Seq<char>, chars: Seq<char>) -> Seq<char>
    decreases chars.len(),
{
    if chars.len() == 0 {
        line
    } else {
        typed_line(read_step(line, Some(Ok(chars[0]))).1, chars.drop_first())
    }
}

/// Typing characters that are neither backspaces nor line feeds appends them
/// to the line, all of them and in order.
pub proof fn lemma_typing_appends(line: Seq<char>, chars: Seq<char>)
    requires
        forall|k: int| 0 <= k < chars.len() ==> chars[k] != '\n' && chars[k] != backspace(),
    ensures
        typed_line(line, chars) == line + chars,
    decreases chars.len(),
{
    if chars.len() > 0 {
        let rest = chars.drop_first();
        assert forall|k: int| 0 <= k < rest.len() implies rest[k] != '\n' && rest[k]
            != backspace() by {
            assert(rest[k] == chars[k + 1]);
        }
        lemma_typing_appends(line.push(chars[0]), rest);
        assert(line.push(chars[0]) + rest =~= line + chars);
    }
}

/// A character that is neither a backspace nor a line feed is echoed and added
/// at the end of the line, and a backspace right after it erases exactly it,
/// giving the line back.
pub proof fn lemma_type_then_erase(line: Seq<char>, c: char)
    requires
        c != '\n',
        c != backspace(),
    ensures
        ({
            let (step, after) = read_step(line, Some(Ok(c)));
            &&& step == ReadStep::Echo(c)
            &&& after.len() == line.len() + 1
            &&& after.last() == c
            &&& read_step(after, Some(Ok(backspace()))) == (ReadStep::Erase, line)
        }),
{
    let after = read_step(line, Some(Ok(c))).1;
    assert(after.drop_last() =~= line);
}

/// The position of a cell and the index of a position are inverse: the cell
/// at index `i` is at column `i % width` of line `i / width`, and that
/// position has index `i`.
pub proof fn lemma_position_index_round_trip(g: GridView, i: nat)
    requires
        g.is_valid(),
        i < g.cells.len(),
    ensures
        ({
            let p = Position { x: (i % g.width) as usize, y: (i / g.width) as usize };
            &&& p.x < g.width
            &&& p.y < g.height
            &&& g.index_of(p) == i
        }),
{
    let w = g.width as int;
    let h = g.height as int;
    let q = i as int / w;
    let r = i as int % w;
    vstd::arithmetic::div_mod::lemma_fundamental_div_mod(i as int, w);
    assert(q < h) by (nonlinear_arith)
        requires
            i as int == w * q + r,
            0 <= r < w,
            i < w * h,
            w > 0,
    ;
    assert(q * w == w * q) by (nonlinear_arith);
}

} // verus!
