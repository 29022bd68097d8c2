use vstd::prelude::*;
use crate::token::{Control, Token};

verus! {

/// Column `x` and row `y` of the next write. Neither is clamped to the
/// screen: a position outside it is only refused by the next write or erase.
#[derive(Clone, Copy, Debug, PartialEq, Eq, Structural)]
pub struct Cursor {
    pub x: usize,
    pub y: usize,
}

/// The fatal failures of a session.
#[derive(Clone, Copy, Debug, PartialEq, Eq, Structural)]
pub enum Error {
    /// A write, an erase or a cursor move would leave the buffer, or a
    /// held-back literal does not fit the scratch buffer.
    BufferOverflow,
    /// The input stream reported a read error.
    InputFailure,
}

/// What applying a token did.
#[derive(Clone, Copy, Debug, PartialEq, Eq, Structural)]
pub enum Effect {
    Applied,
    /// An unrecognized control: nothing changed.
    Ignored,
}

/// A fixed grid of `width * height` bytes; cell `(x, y)` is at `x + y * width`.
pub struct Screen {
    width: usize,
    height: usize,
    blank: u8,
    cells: Vec<u8>,
}

/// A screen as its dimensions, its blank byte and its cells.
pub struct ScreenView {
    pub width: nat,
    pub height: nat,
    pub blank: u8,
    pub cells: Seq<u8>,
}

impl View for Screen {
    type V = ScreenView;

    closed spec fn view(&self) -> ScreenView {
        ScreenView {
            width: self.width as nat,
            height: self.height as nat,
            blank: self.blank,
            cells: self.cells@,
        }
    }
}

impl ScreenView {
    /// Both dimensions are positive and the cells fill the grid exactly.
    pub open spec fn wf(self) -> bool {
        &&& self.width > 0
        &&& self.height > 0
        &&& self.cells.len() == self.width * self.height
        &&& self.width * self.height <= usize::MAX
    }

    pub open spec fn with_cells(self, cells: Seq<u8>) -> ScreenView {
        ScreenView { cells, ..self }
    }
}

/// `cells` with the cells in `[lo, hi)` set to `v`.
pub open spec fn fill_span(cells: Seq<u8>, lo: int, hi: int, v: u8) -> Seq<u8> {
    Seq::new(cells.len(), |i: int| if lo <= i < hi { v } else { cells[i] })
}

/// `cells` with `text` written from index `start` on.
pub open spec fn write_span(cells: Seq<u8>, start: int, text: Seq<u8>) -> Seq<u8> {
    Seq::new(
        cells.len(),
        |i: int| if start <= i < start + text.len() { text[i - start] } else { cells[i] },
    )
}

/// The linear index of the cursor.
pub open spec fn index_of(s: ScreenView, c: Cursor) -> int {
    c.x + c.y * s.width
}

pub open spec fn cursor_at(x: int, y: int) -> Cursor {
    Cursor { x: x as usize, y: y as usize }
}

pub open spec fn in_usize(v: int) -> bool {
    0 <= v <= usize::MAX
}

/// A cursor move to `(x, y)`: refused when a coordinate leaves `usize`.
pub open spec fn move_to(s: ScreenView, x: int, y: int) -> Result<(ScreenView, Cursor), Error> {
    if in_usize(x) && in_usize(y) {
        Ok((s, cursor_at(x, y)))
    } else {
        Err(Error::BufferOverflow)
    }
}

/// The state after a literal run: written from the cursor on, which then
/// advances by whole rows and the remaining columns, without wrapping.
pub open spec fn literal_step(s: ScreenView, c: Cursor, text: Seq<u8>) -> Result<(ScreenView, Cursor), Error> {
    let start = index_of(s, c);
    if start + text.len() <= s.width * s.height {
        Ok((
            s.with_cells(write_span(s.cells, start, text)),
            cursor_at(c.x + text.len() as int % s.width as int, c.y + text.len() as int / s.width as int),
        ))
    } else {
        Err(Error::BufferOverflow)
    }
}

/// The state after a control operation.
pub open spec fn control_step(s: ScreenView, c: Cursor, op: Control) -> Result<(ScreenView, Cursor), Error> {
    match op {
        Control::SetCursorPosition { row, col } => Ok((s, cursor_at(col as int, row as int))),
        Control::CursorUp(n) => move_to(s, c.x as int, c.y - n),
        Control::CursorDown(n) => move_to(s, c.x as int, c.y + n),
        Control::CursorForward(n) => move_to(s, c.x + n, c.y as int),
        Control::CursorBackward(n) => move_to(s, c.x - n, c.y as int),
        Control::EraseToEndOfLine => {
            if c.x <= s.width && c.y < s.height {
                Ok((s.with_cells(fill_span(s.cells, index_of(s, c), c.y * s.width + s.width, s.blank)), c))
            } else {
                Err(Error::BufferOverflow)
            }
        },
        Control::EraseToEndOfDisplay => {
            if index_of(s, c) <= s.width * s.height {
                Ok((s.with_cells(fill_span(s.cells, index_of(s, c), (s.width * s.height) as int, s.blank)), c))
            } else {
                Err(Error::BufferOverflow)
            }
        },
        Control::Other => Ok((s, c)),
    }
}

/// The state after one token.
pub open spec fn step(s: ScreenView, c: Cursor, t: Token) -> Result<(ScreenView, Cursor), Error> {
    match t {
        Token::Literal(text) => literal_step(s, c, text@),
        Token::Control(op) => control_step(s, c, op),
    }
}

proof fn lemma_row_bounds(y: int, w: int, h: int)
    requires
        0 <= y <= h,
        w > 0,
    ensures
        y * w <= w * h,
{
    assert(y * w <= w * h) by (nonlinear_arith)
        requires 0 <= y <= h, w > 0;
}

proof fn lemma_advance(x: int, y: int, len: int, w: int, h: int)
    requires
        0 <= x,
        0 <= y,
        0 <= len,
        w > 0,
        x + y * w + len <= w * h,
    ensures
        x + len % w <= w * h,
        y + len / w <= h,
{
    assert(len == w * (len / w) + len % w && 0 <= len % w < w) by (nonlinear_arith)
        requires w > 0, len >= 0;
    assert(0 <= len / w) by (nonlinear_arith)
        requires w > 0, len >= 0;
    assert((y + len / w) * w <= y * w + len) by (nonlinear_arith)
        requires len == w * (len / w) + len % w, 0 <= len % w;
    assert(y + len / w <= h) by (nonlinear_arith)
        requires (y + len / w) * w <= w * h, w > 0;
}

impl Screen {
    /// A `width` by `height` screen with every cell set to `blank`.
    pub fn new(width: usize, height: usize, blank: u8) -> (r: Screen)
        requires
            width > 0,
            height > 0,
            width * height <= usize::MAX,
        ensures
            r@.wf(),
            r@.width == width,
            r@.height == height,
            r@.blank == blank,
            r@.cells == Seq::new((width * height) as nat, |i: int| blank),
    {
        let n: usize = width * height;
        let mut cells: Vec<u8> = Vec::new();
        let mut i: usize = 0;
        while i < n
            invariant
                i <= n,
                cells@ == Seq::new(i as nat, |j: int| blank),
            decreases n - i,
        {
            cells.push(blank);
            i = i + 1;
        }
        Screen { width, height, blank, cells }
    }

    pub fn width(&self) -> (r: usize)
        ensures
            r == self@.width,
    {
        self.width
    }

    pub fn height(&self) -> (r: usize)
        ensures
            r == self@.height,
    {
        self.height
    }

    pub fn blank(&self) -> (r: u8)
        ensures
            r == self@.blank,
    {
        self.blank
    }

    /// The whole buffer, row after row.
    pub fn cells(&self) -> (r: &[u8])
        ensures
            r@ == self@.cells,
    {
        self.cells.as_slice()
    }

    fn fill(&mut self, lo: usize, hi: usize)
        requires
            lo <= hi <= old(self).cells@.len(),
        ensures
            final(self)@ == old(self)@.with_cells(fill_span(old(self)@.cells, lo as int, hi as int, old(self)@.blank)),
    {
        let mut i: usize = lo;
        while i < hi
            invariant
                lo <= i <= hi <= self.cells@.len(),
                self.width == old(self).width,
                self.height == old(self).height,
                self.blank == old(self).blank,
                self.cells@ == fill_span(old(self).cells@, lo as int, i as int, self.blank),
            decreases hi - i,
        {
            self.cells.set(i, self.blank);
            i = i + 1;
        }
        assert(self.cells@ =~= fill_span(old(self).cells@, lo as int, hi as int, self.blank));
    }

    fn write(&mut self, start: usize, text: &[u8])
        requires
            start + text@.len() <= old(self).cells@.len(),
        ensures
            final(self)@ == old(self)@.with_cells(write_span(old(self)@.cells, start as int, text@)),
    {
        let n: usize = self.cells.len();
        let mut i: usize = 0;
        while i < text.len()
            invariant
                n == self.cells@.len(),
                i <= text@.len(),
                start + text@.len() <= self.cells@.len(),
                self.width == old(self).width,
                self.height == old(self).height,
                self.blank == old(self).blank,
                self.cells@ == write_span(old(self).cells@, start as int, text@.subrange(0, i as int)),
            decreases text@.len() - i,
        {
            self.cells.set(start + i, text[i]);
            i = i + 1;
            assert(self.cells@ =~= write_span(old(self).cells@, start as int, text@.subrange(0, i as int)));
        }
        assert(text@.subrange(0, text@.len() as int) =~= text@);
    }

    /// Where the cursor's row begins, when that row is not past the last one.
    fn row_start(&self, y: usize) -> (r: Option<usize>)
        requires
            self@.wf(),
        ensures
            r == (if y <= self@.height { Some((y * self@.width) as usize) } else { None::<usize> }),
            y <= self@.height ==> y * self@.width <= self@.width * self@.height,
    {
        if y > self.height {
            return None;
        }
        proof {
            lemma_row_bounds(y as int, self.width as int, self.height as int);
        }
        Some(y * self.width)
    }

    /// Applies one token to the screen and the cursor. On an error neither
    /// changes.
    pub fn apply(&mut self, cursor: &mut Cursor, token: &Token) -> (r: Result<Effect, Error>)
        requires
            old(self)@.wf(),
        ensures
            final(self)@.wf(),
            match step(old(self)@, *old(cursor), *token) {
                Ok((s, c)) => {
                    &&& final(self)@ == s
                    &&& *final(cursor) == c
                    &&& r == Ok::<Effect, Error>(
                        if *token == Token::Control(Control::Other) { Effect::Ignored } else { Effect::Applied },
                    )
                },
                Err(e) => {
                    &&& final(self)@ == old(self)@
                    &&& *final(cursor) == *old(cursor)
                    &&& r == Err::<Effect, Error>(e)
                },
            },
    {
        let w = self.width;
        match token {
            Token::Literal(text) => {
                let len = text.len();
                let rs = match self.row_start(cursor.y) {
                    Some(rs) => rs,
                    None => {
                        proof {
                            assert(cursor.y * w > w * self.height) by (nonlinear_arith)
                                requires cursor.y >= self.height + 1, w > 0;
                        }
                        return Err(Error::BufferOverflow);
                    },
                };
                let room = self.cells.len() - rs;
                if cursor.x > room || len > room - cursor.x {
                    return Err(Error::BufferOverflow);
                }
                let start = rs + cursor.x;
                self.write(start, text.as_slice());
                proof {
                    lemma_advance(cursor.x as int, cursor.y as int, len as int, w as int, self.height as int);
                }
                cursor.x = cursor.x + len % w;
                cursor.y = cursor.y + len / w;
                Ok(Effect::Applied)
            },
            Token::Control(op) => {
                match op {
                    Control::SetCursorPosition { row, col } => {
                        cursor.x = *col as usize;
                        cursor.y = *row as usize;
                        Ok(Effect::Applied)
                    },
                    Control::CursorUp(n) => {
                        if (*n as usize) > cursor.y {
                            return Err(Error::BufferOverflow);
                        }
                        cursor.y = cursor.y - *n as usize;
                        Ok(Effect::Applied)
                    },
                    Control::CursorDown(n) => {
                        if cursor.y > usize::MAX - *n as usize {
                            return Err(Error::BufferOverflow);
                        }
                        cursor.y = cursor.y + *n as usize;
                        Ok(Effect::Applied)
                    },
                    Control::CursorForward(n) => {
                        if cursor.x > usize::MAX - *n as usize {
                            return Err(Error::BufferOverflow);
                        }
                        cursor.x = cursor.x + *n as usize;
                        Ok(Effect::Applied)
                    },
                    Control::CursorBackward(n) => {
                        if (*n as usize) > cursor.x {
                            return Err(Error::BufferOverflow);
                        }
                        cursor.x = cursor.x - *n as usize;
                        Ok(Effect::Applied)
                    },
                    Control::EraseToEndOfLine => {
                        if cursor.x > w || cursor.y >= self.height {
                            return Err(Error::BufferOverflow);
                        }
                        proof {
                            lemma_row_bounds(cursor.y as int + 1, w as int, self.height as int);
                            assert((cursor.y + 1) * w == cursor.y * w + w) by (nonlinear_arith);
                            assert(cursor.y * w + w <= w * self.height);
                        }
                        let rs = cursor.y * w;
                        self.fill(rs + cursor.x, rs + w);
                        Ok(Effect::Applied)
                    },
                    Control::EraseToEndOfDisplay => {
                        let rs = match self.row_start(cursor.y) {
                            Some(rs) => rs,
                            None => {
                                proof {
                                    assert(cursor.y * w > w * self.height) by (nonlinear_arith)
                                        requires cursor.y >= self.height + 1, w > 0;
                                }
                                return Err(Error::BufferOverflow);
                            },
                        };
                        let n = self.cells.len();
                        if cursor.x > n - rs {
                            return Err(Error::BufferOverflow);
                        }
                        self.fill(rs + cursor.x, n);
                        Ok(Effect::Applied)
                    },
                    Control::Other => Ok(Effect::Ignored),
                }
            },
        }
    }
}

/// A literal run that would end past the last cell is refused with
/// `BufferOverflow`; nothing is written or truncated.
pub proof fn lemma_literal_bounds(s: ScreenView, c: Cursor, t: Token)
    requires
        s.wf(),
        t is Literal,
        index_of(s, c) + t->Literal_0@.len() > s.width * s.height,
    ensures
        step(s, c, t) == Err::<(ScreenView, Cursor), Error>(Error::BufferOverflow),
{
}

/// Erasing to the end of the display a second time changes nothing.
pub proof fn lemma_erase_display_idempotent(s: ScreenView, c: Cursor)
    requires
        s.wf(),
    ensures
        step(s, c, Token::Control(Control::EraseToEndOfDisplay)) matches Ok((s1, c1)) ==>
            step(s1, c1, Token::Control(Control::EraseToEndOfDisplay)) == Ok::<(ScreenView, Cursor), Error>((s1, c1)),
{
    let op = Token::Control(Control::EraseToEndOfDisplay);
    if let Ok((s1, c1)) = step(s, c, op) {
        let lo = index_of(s, c);
        let hi = (s.width * s.height) as int;
        assert(fill_span(s1.cells, lo, hi, s.blank) =~= s1.cells);
        assert(s1.with_cells(fill_span(s1.cells, lo, hi, s1.blank)) == s1);
    }
}

/// An unrecognized control leaves the screen and the cursor as they were.
pub proof fn lemma_unrecognized_noop(s: ScreenView, c: Cursor)
    ensures
        step(s, c, Token::Control(Control::Other)) == Ok::<(ScreenView, Cursor), Error>((s, c)),
{
}

} // verus!
