use vstd::prelude::*;
use crate::reassembler::{next_rel, supply_spec, Reassembler, ReassemblerView, Status, Step};
use crate::screen::{step, Cursor, Effect, Error, Screen, ScreenView};
use crate::token::{Control, Token};

verus! {

/// What the driver of a session has to do next.
#[derive(Clone, Copy, Debug, PartialEq, Eq, Structural)]
pub enum Action {
    /// One token was applied: hand the screen to the renderer.
    Render(Effect),
    /// Read at most this many bytes and hand them to `supply`.
    Read(usize),
    /// The stream is exhausted.
    End,
    /// The session failed.
    Fail(Error),
}

/// A reassembler feeding an interpreter: the bytes of a stream go in, the
/// screen and the cursor follow every token in stream order.
pub struct Session {
    reader: Reassembler,
    screen: Screen,
    cursor: Cursor,
}

/// The state and the action after the reassembler's step `s`, taken from
/// screen `sc` and cursor `c`, led the reassembler to `r`.
pub open spec fn action_rel(
    r: ReassemblerView,
    sc: ScreenView,
    c: Cursor,
    s: Step,
    r2: ReassemblerView,
    sc2: ScreenView,
    c2: Cursor,
    a: Action,
) -> bool {
    match s {
        Step::Release(t) => match step(sc, c, t) {
            Ok((sc1, c1)) => {
                &&& r2 == r
                &&& sc2 == sc1
                &&& c2 == c1
                &&& a == Action::Render(
                    if t == Token::Control(Control::Other) { Effect::Ignored } else { Effect::Applied },
                )
            },
            Err(e) => {
                &&& r2 == (ReassemblerView { status: Status::Failed(e), queue: Seq::empty(), ..r })
                &&& sc2 == sc
                &&& c2 == c
                &&& a == Action::Fail(e)
            },
        },
        Step::Read(n) => r2 == r && sc2 == sc && c2 == c && a == Action::Read(n),
        Step::End => r2 == r && sc2 == sc && c2 == c && a == Action::End,
        Step::Fail(e) => r2 == r && sc2 == sc && c2 == c && a == Action::Fail(e),
    }
}

impl Session {
    pub closed spec fn reader_view(&self) -> ReassemblerView {
        self.reader@
    }

    pub closed spec fn screen_view(&self) -> ScreenView {
        self.screen@
    }

    pub closed spec fn cursor_view(&self) -> Cursor {
        self.cursor
    }

    pub open spec fn wf(&self) -> bool {
        self.reader_view().wf() && self.screen_view().wf()
    }

    /// A session on a `width` by `height` screen filled with `blank`, the
    /// cursor at the origin, with a scratch buffer of `capacity` bytes.
    pub fn new(width: usize, height: usize, blank: u8, capacity: usize) -> (r: Session)
        requires
            width > 0,
            height > 0,
            width * height <= usize::MAX,
            capacity > 0,
        ensures
            r.wf(),
            r.screen_view().width == width,
            r.screen_view().height == height,
            r.screen_view().blank == blank,
            r.screen_view().cells == Seq::new((width * height) as nat, |i: int| blank),
            r.cursor_view() == (Cursor { x: 0, y: 0 }),
            r.reader_view().capacity == capacity,
            r.reader_view().held.len() == 0,
            r.reader_view().queue.len() == 0,
            r.reader_view().status == Status::Running,
    {
        Session {
            reader: Reassembler::with_capacity(capacity),
            screen: Screen::new(width, height, blank),
            cursor: Cursor { x: 0, y: 0 },
        }
    }

    pub fn screen(&self) -> (r: &Screen)
        ensures
            r@ == self.screen_view(),
    {
        &self.screen
    }

    pub fn cursor(&self) -> (r: Cursor)
        ensures
            r == self.cursor_view(),
    {
        self.cursor
    }

    pub fn status(&self) -> (r: Status)
        ensures
            r == self.reader_view().status,
    {
        self.reader.status()
    }

    pub fn awaiting_read(&self) -> (r: bool)
        ensures
            r == self.reader_view().awaiting_read(),
    {
        self.reader.awaiting_read()
    }

    /// Takes one step: applies the next released token, or says what the
    /// driver must do. A token that cannot be applied stops the session.
    pub fn advance(&mut self) -> (a: Action)
        requires
            old(self).wf(),
        ensures
            final(self).wf(),
            exists|s: Step, r1: ReassemblerView|
                #[trigger] next_rel(old(self).reader_view(), r1, s) && action_rel(
                    r1,
                    old(self).screen_view(),
                    old(self).cursor_view(),
                    s,
                    final(self).reader_view(),
                    final(self).screen_view(),
                    final(self).cursor_view(),
                    a,
                ),
    {
        let ghost r0 = self.reader@;
        let s = self.reader.next_step();
        let ghost r1 = self.reader@;
        let ghost s0 = s;
        let a = match s {
            Step::Release(t) => match self.screen.apply(&mut self.cursor, &t) {
                Ok(e) => Action::Render(e),
                Err(e) => {
                    self.reader.fail(e);
                    Action::Fail(e)
                },
            },
            Step::Read(n) => Action::Read(n),
            Step::End => Action::End,
            Step::Fail(e) => Action::Fail(e),
        };
        assert(next_rel(r0, r1, s0));
        a
    }

    /// Hands over the bytes of one read; an empty chunk marks the end of the input.
    pub fn supply(&mut self, chunk: &[u8])
        requires
            old(self).wf(),
            old(self).reader_view().awaiting_read(),
        ensures
            final(self).wf(),
            final(self).reader_view() == supply_spec(old(self).reader_view(), chunk@),
            final(self).screen_view() == old(self).screen_view(),
            final(self).cursor_view() == old(self).cursor_view(),
    {
        self.reader.supply(chunk);
    }

    /// Records that a read failed; the session stops.
    pub fn fail_read(&mut self)
        requires
            old(self).wf(),
        ensures
            final(self).wf(),
            final(self).reader_view() == (ReassemblerView {
                status: Status::Failed(Error::InputFailure),
                queue: Seq::empty(),
                ..old(self).reader_view()
            }),
            final(self).screen_view() == old(self).screen_view(),
            final(self).cursor_view() == old(self).cursor_view(),
    {
        self.reader.fail(Error::InputFailure);
    }
}

/// A released unrecognized control leads to exactly one render, of a screen
/// and a cursor left as they were.
pub proof fn lemma_unrecognized_renders_once(
    r: ReassemblerView,
    sc: ScreenView,
    c: Cursor,
    r2: ReassemblerView,
    sc2: ScreenView,
    c2: Cursor,
    a: Action,
)
    requires
        action_rel(r, sc, c, Step::Release(Token::Control(Control::Other)), r2, sc2, c2, a),
    ensures
        a == Action::Render(Effect::Ignored),
        r2 == r,
        sc2 == sc,
        c2 == c,
{
}

} // verus!
