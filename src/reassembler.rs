use vstd::prelude::*;
use crate::screen::Error;
use crate::token::{ansi_tokens, tokenize, Token};

verus! {

/// The scratch capacity of a session when none is chosen.
pub const SCRATCH_CAPACITY: usize = 128;

#[derive(Clone, Copy, Debug, PartialEq, Eq, Structural)]
pub enum Status {
    /// Reading and releasing tokens.
    Running,
    /// The input ended; the held-back literal is still to be released.
    Draining,
    /// Every token has been released.
    Ended,
    /// A fatal error stopped the session.
    Failed(Error),
}

/// What the driver of a session has to do next.
#[derive(Debug)]
pub enum Step {
    /// Interpret this token.
    Release(Token),
    /// Read at most this many bytes and hand them to `supply`.
    Read(usize),
    /// The stream is exhausted.
    End,
    /// The session failed.
    Fail(Error),
}

/// Pulls tokens out of a byte stream that arrives in chunks, so that an
/// escape sequence split across two chunks is never mistaken for text.
///
/// Tokens of the latest tokenized chunk wait in a queue. The first of them is
/// released only when another follows it; a control sequence at the end is
/// complete and is released too; a literal at the end may be the start of an
/// escape sequence and is held back, to be tokenized again in front of the
/// next chunk.
pub struct Reassembler {
    capacity: usize,
    held: Vec<u8>,
    queue: Vec<Token>,
    status: Status,
}

/// A reassembler as its scratch capacity, the bytes held back for the next
/// read, the tokens not yet released, and its status.
pub struct ReassemblerView {
    pub capacity: nat,
    pub held: Seq<u8>,
    pub queue: Seq<Token>,
    pub status: Status,
}

impl View for Reassembler {
    type V = ReassemblerView;

    closed spec fn view(&self) -> ReassemblerView {
        ReassemblerView {
            capacity: self.capacity as nat,
            held: self.held@,
            queue: self.queue@,
            status: self.status,
        }
    }
}

impl ReassemblerView {
    pub open spec fn wf(self) -> bool {
        &&& 0 < self.capacity <= usize::MAX
        &&& self.held.len() < self.capacity
        &&& self.queue.len() > 0 ==> self.held.len() == 0 && self.status == Status::Running
    }

    /// Waiting for the next chunk.
    pub open spec fn awaiting_read(self) -> bool {
        self.status == Status::Running && self.queue.len() == 0
    }

    /// Free scratch space after the held-back bytes.
    pub open spec fn room(self) -> nat {
        (self.capacity - self.held.len()) as nat
    }
}

/// `w` and `s` are the state and the step after `next_step` on `v`.
pub open spec fn next_rel(v: ReassemblerView, w: ReassemblerView, s: Step) -> bool {
    match v.status {
        Status::Ended => w == v && s == Step::End,
        Status::Failed(e) => w == v && s == Step::Fail(e),
        Status::Draining => {
            &&& w == ReassemblerView { held: Seq::empty(), status: Status::Ended, ..v }
            &&& s is Release
            &&& s->Release_0 is Literal
            &&& s->Release_0->Literal_0@ == v.held
        },
        Status::Running => {
            if v.queue.len() >= 2 || (v.queue.len() == 1 && v.queue[0] is Control) {
                &&& w == ReassemblerView { queue: v.queue.drop_first(), ..v }
                &&& s == Step::Release(v.queue[0])
            } else if v.queue.len() == 1 {
                let b = v.queue[0]->Literal_0@;
                if b.len() < v.capacity {
                    &&& w == ReassemblerView { held: b, queue: Seq::empty(), ..v }
                    &&& s == Step::Read((v.capacity - b.len()) as usize)
                } else {
                    &&& w == ReassemblerView {
                        queue: Seq::empty(),
                        status: Status::Failed(Error::BufferOverflow),
                        ..v
                    }
                    &&& s == Step::Fail(Error::BufferOverflow)
                }
            } else {
                &&& w == v
                &&& s == Step::Read(v.room() as usize)
            }
        },
    }
}

/// The state after `chunk` is handed to a session waiting in state `v`; an
/// empty chunk marks the end of the input.
pub open spec fn supply_spec(v: ReassemblerView, chunk: Seq<u8>) -> ReassemblerView {
    if chunk.len() > v.room() {
        ReassemblerView { status: Status::Failed(Error::BufferOverflow), ..v }
    } else if chunk.len() == 0 {
        ReassemblerView {
            status: if v.held.len() == 0 { Status::Ended } else { Status::Draining },
            ..v
        }
    } else {
        ReassemblerView { held: Seq::empty(), queue: ansi_tokens(v.held + chunk), ..v }
    }
}

impl Reassembler {
    /// A session with a scratch buffer of `capacity` bytes that has read nothing yet.
    pub fn with_capacity(capacity: usize) -> (r: Reassembler)
        requires
            capacity > 0,
        ensures
            r@.wf(),
            r@.capacity == capacity,
            r@.held.len() == 0,
            r@.queue.len() == 0,
            r@.status == Status::Running,
    {
        Reassembler { capacity, held: Vec::new(), queue: Vec::new(), status: Status::Running }
    }

    /// A session with the default scratch capacity.
    pub fn new() -> (r: Reassembler)
        ensures
            r@.wf(),
            r@.capacity == SCRATCH_CAPACITY,
            r@.held.len() == 0,
            r@.queue.len() == 0,
            r@.status == Status::Running,
    {
        Reassembler::with_capacity(SCRATCH_CAPACITY)
    }

    pub fn status(&self) -> (r: Status)
        ensures
            r == self@.status,
    {
        self.status
    }

    pub fn capacity(&self) -> (r: usize)
        ensures
            r == self@.capacity,
    {
        self.capacity
    }

    /// Whether the session waits for `supply`.
    pub fn awaiting_read(&self) -> (r: bool)
        ensures
            r == self@.awaiting_read(),
    {
        self.queue.len() == 0 && self.status == Status::Running
    }

    /// Decides the next step: release a token, ask for a read, or stop.
    pub fn next_step(&mut self) -> (s: Step)
        requires
            old(self)@.wf(),
        ensures
            final(self)@.wf(),
            next_rel(old(self)@, final(self)@, s),
    {
        match self.status {
            Status::Ended => Step::End,
            Status::Failed(e) => Step::Fail(e),
            Status::Draining => {
                let mut last: Vec<u8> = Vec::new();
                std::mem::swap(&mut last, &mut self.held);
                self.status = Status::Ended;
                Step::Release(Token::Literal(last))
            },
            Status::Running => {
                let n = self.queue.len();
                if n == 0 {
                    return Step::Read(self.capacity - self.held.len());
                }
                if n == 1 {
                    if let Token::Literal(b) = &self.queue[0] {
                        if b.len() >= self.capacity {
                            self.status = Status::Failed(Error::BufferOverflow);
                            self.queue = Vec::new();
                            return Step::Fail(Error::BufferOverflow);
                        }
                        let t = self.queue.remove(0);
                        assert(self.queue@ =~= Seq::<Token>::empty());
                        match t {
                            Token::Literal(b) => {
                                let room = self.capacity - b.len();
                                self.held = b;
                                return Step::Read(room);
                            },
                            Token::Control(_) => {
                                return Step::Release(t);
                            },
                        }
                    }
                }
                let t = self.queue.remove(0);
                Step::Release(t)
            },
        }
    }

    /// Hands over the bytes of one read; an empty chunk marks the end of the
    /// input. A chunk larger than the free scratch space is an overflow.
    pub fn supply(&mut self, chunk: &[u8])
        requires
            old(self)@.wf(),
            old(self)@.awaiting_read(),
        ensures
            final(self)@.wf(),
            final(self)@ == supply_spec(old(self)@, chunk@),
    {
        if chunk.len() > self.capacity - self.held.len() {
            self.status = Status::Failed(Error::BufferOverflow);
            return;
        }
        if chunk.len() == 0 {
            if self.held.len() == 0 {
                self.status = Status::Ended;
            } else {
                self.status = Status::Draining;
            }
            return;
        }
        let mut combined: Vec<u8> = Vec::new();
        std::mem::swap(&mut combined, &mut self.held);
        let mut i: usize = 0;
        while i < chunk.len()
            invariant
                i <= chunk@.len(),
                combined@ == old(self).held@ + chunk@.subrange(0, i as int),
            decreases chunk@.len() - i,
        {
            combined.push(chunk[i]);
            i = i + 1;
            assert(combined@ =~= old(self).held@ + chunk@.subrange(0, i as int));
        }
        assert(chunk@.subrange(0, chunk@.len() as int) =~= chunk@);
        self.queue = tokenize(combined.as_slice());
        proof {
            assert(self.held@ =~= Seq::<u8>::empty());
        }
    }

    /// Stops the session with a fatal error: a failed read, or a token that
    /// could not be applied.
    pub fn fail(&mut self, e: Error)
        requires
            old(self)@.wf(),
        ensures
            final(self)@.wf(),
            final(self)@ == (ReassemblerView { status: Status::Failed(e), queue: Seq::empty(), ..old(self)@ }),
    {
        self.status = Status::Failed(e);
        self.queue = Vec::new();
    }
}

/// While the input runs, tokens leave the queue in order, one at a time,
/// and a token is released only when it is a control sequence or another
/// token follows it: a literal that may be the start of a split escape
/// sequence is never released early.
pub proof fn lemma_release_in_order(v: ReassemblerView, w: ReassemblerView, s: Step)
    requires
        v.wf(),
        v.status == Status::Running,
        next_rel(v, w, s),
        s is Release,
    ensures
        v.queue == seq![s->Release_0] + w.queue,
        s->Release_0 is Control || w.queue.len() > 0,
{
    assert(v.queue =~= seq![s->Release_0] + w.queue);
}

/// A literal held back at the end of a chunk is tokenized again together
/// with the bytes of the next read, in front of them.
pub proof fn lemma_held_literal_rejoined(v: ReassemblerView, w: ReassemblerView, s: Step, chunk: Seq<u8>)
    requires
        v.wf(),
        v.status == Status::Running,
        v.queue.len() == 1,
        v.queue[0] is Literal,
        next_rel(v, w, s),
        s is Read,
        0 < chunk.len() <= s->Read_0,
    ensures
        w.awaiting_read(),
        supply_spec(w, chunk).queue == ansi_tokens(v.queue[0]->Literal_0@ + chunk),
{
}

} // verus!
