//! Character-counting flow control: lines are admitted only while the bytes
//! of every unanswered line fit the controller's receive buffer, and each
//! response belongs to the oldest unanswered line.
use vstd::prelude::*;

use std::collections::VecDeque;
use vstd::string::StringSliceAdditionalSpecFns;

use super::proto::ProtocolError;

verus! {

/// Capacity of the controller's receive buffer, in bytes.
pub const BUFFER_SIZE: usize = 128;

/// Why a line was refused before it reached the wire.
#[derive(Debug, Clone, Copy, PartialEq, Eq, Structural)]
pub enum ConfigError {
    /// The line, with its newline, is longer than the receive buffer.
    LineTooLong,
}

/// Sum of the byte lengths of unanswered lines.
pub open spec fn total<A>(q: Seq<(A, usize)>) -> int
    decreases q.len(),
{
    if q.len() == 0 {
        0
    } else {
        total(q.drop_last()) + q.last().1
    }
}

/// Bytes on the wire for `line`, newline included, or the refusal of a line
/// that can never fit.
pub fn wire_length(line: &str) -> (r: Result<usize, ConfigError>)
    ensures
        r == if (line.spec_bytes().len() as usize) <= BUFFER_SIZE {
            Ok::<usize, ConfigError>(line.spec_bytes().len() as usize)
        } else {
            Err::<usize, ConfigError>(ConfigError::LineTooLong)
        },
{
    let n = line.len();
    if n > BUFFER_SIZE {
        Err(ConfigError::LineTooLong)
    } else {
        Ok(n)
    }
}

/// What became of a line offered to the buffer.
pub enum Admission<A> {
    /// The line is counted as unanswered; it goes on the wire now.
    Admitted,
    /// Too little room is left; the awaiter comes back, to offer again later.
    Wait(A),
    /// The line can never fit; the awaiter comes back with the refusal.
    Rejected(A, ConfigError),
}

/// The unanswered lines, oldest first, each with the awaiter of its response
/// and its byte length, and the bytes of buffer left.
pub struct LineBuffer<A> {
    outstanding: VecDeque<(A, usize)>,
    remaining: usize,
}

impl<A> LineBuffer<A> {
    pub closed spec fn outstanding(&self) -> Seq<(A, usize)> {
        self.outstanding@
    }

    pub closed spec fn remaining(&self) -> int {
        self.remaining as int
    }

    /// The bytes left and the bytes of unanswered lines add up to the capacity.
    pub open spec fn wf(&self) -> bool {
        &&& 0 <= self.remaining()
        &&& self.remaining() + total(self.outstanding()) == BUFFER_SIZE
    }

    pub fn new() -> (r: Self)
        ensures
            r.wf(),
            r.remaining() == BUFFER_SIZE,
            r.outstanding() == Seq::<(A, usize)>::empty(),
    {
        LineBuffer { outstanding: VecDeque::new(), remaining: BUFFER_SIZE }
    }

    pub fn remaining_bytes(&self) -> (r: usize)
        ensures
            r == self.remaining(),
    {
        self.remaining
    }

    pub fn unanswered(&self) -> (r: usize)
        ensures
            r == self.outstanding().len(),
    {
        self.outstanding.len()
    }

    /// Whether a line of `len` bytes would have to wait for room.
    pub fn would_wait(&self, len: usize) -> (r: bool)
        ensures
            r == (len <= BUFFER_SIZE && len > self.remaining()),
    {
        len <= BUFFER_SIZE && len > self.remaining
    }

    /// Offers a line of `len` bytes whose response `awaiter` waits for.
    pub fn offer(&mut self, awaiter: A, len: usize) -> (r: Admission<A>)
        requires
            old(self).wf(),
        ensures
            final(self).wf(),
            len > BUFFER_SIZE ==> r == Admission::Rejected(awaiter, ConfigError::LineTooLong)
                && *final(self) == *old(self),
            len <= BUFFER_SIZE && len > old(self).remaining() ==> r == Admission::Wait(awaiter)
                && *final(self) == *old(self),
            len <= old(self).remaining() ==> r == Admission::<A>::Admitted
                && final(self).outstanding() == old(self).outstanding().push((awaiter, len))
                && final(self).remaining() == old(self).remaining() - len,
    {
        proof {
            lemma_total_nonneg(self.outstanding@);
        }
        if len > BUFFER_SIZE {
            return Admission::Rejected(awaiter, ConfigError::LineTooLong);
        }
        if len > self.remaining {
            return Admission::Wait(awaiter);
        }
        let ghost q = self.outstanding@;
        self.outstanding.push_back((awaiter, len));
        self.remaining = self.remaining - len;
        assert(self.outstanding@.drop_last() =~= q);
        Admission::Admitted
    }

    /// Takes the awaiter of the oldest unanswered line, whose response has
    /// arrived, and gives its bytes back to the budget.
    pub fn on_response(&mut self) -> (r: Result<A, ProtocolError>)
        requires
            old(self).wf(),
        ensures
            final(self).wf(),
            old(self).outstanding().len() == 0 ==> r == Err::<A, ProtocolError>(
                ProtocolError::UnexpectedResponse,
            ) && *final(self) == *old(self),
            old(self).outstanding().len() > 0 ==> r == Ok::<A, ProtocolError>(
                old(self).outstanding()[0].0,
            ) && final(self).outstanding() == old(self).outstanding().drop_first()
                && final(self).remaining() == old(self).remaining() + old(self).outstanding()[0].1,
    {
        let ghost q = self.outstanding@;
        if self.outstanding.len() == 0 {
            return Err(ProtocolError::UnexpectedResponse);
        }
        match self.outstanding.pop_front() {
            None => Err(ProtocolError::UnexpectedResponse),
            Some((awaiter, len)) => {
                proof {
                    lemma_total_drop_first(q);
                    lemma_total_nonneg(q.drop_first());
                }
                self.remaining = self.remaining + len;
                Ok(awaiter)
            },
        }
    }

    /// Empties the buffer after the link was lost and hands back every
    /// awaiter, oldest first, to be failed.
    pub fn on_link_loss(&mut self) -> (r: Vec<A>)
        requires
            old(self).wf(),
        ensures
            final(self).wf(),
            final(self).outstanding().len() == 0,
            final(self).remaining() == BUFFER_SIZE,
            r@.len() == old(self).outstanding().len(),
            forall|i: int| 0 <= i < r@.len() ==> r@[i] == old(self).outstanding()[i].0,
    {
        let ghost q = self.outstanding@;
        let mut out: Vec<A> = Vec::new();
        while self.outstanding.len() > 0
            invariant
                out@.len() + self.outstanding@.len() == q.len(),
                self.outstanding@ == q.subrange(out@.len() as int, q.len() as int),
                forall|i: int| 0 <= i < out@.len() ==> out@[i] == q[i].0,
            decreases self.outstanding@.len(),
        {
            let ghost before = self.outstanding@;
            match self.outstanding.pop_front() {
                Some((awaiter, _)) => {
                    assert(before[0] == q[out@.len() as int]);
                    out.push(awaiter);
                    assert(self.outstanding@ =~= q.subrange(out@.len() as int, q.len() as int));
                },
                None => {},
            }
        }
        self.remaining = BUFFER_SIZE;
        out
    }
}

pub proof fn lemma_total_nonneg<A>(q: Seq<(A, usize)>)
    ensures
        total(q) >= 0,
    decreases q.len(),
{
    if q.len() > 0 {
        lemma_total_nonneg(q.drop_last());
    }
}

pub proof fn lemma_total_drop_first<A>(q: Seq<(A, usize)>)
    requires
        q.len() > 0,
    ensures
        total(q) == q[0].1 + total(q.drop_first()),
    decreases q.len(),
{
    if q.len() > 1 {
        lemma_total_drop_first(q.drop_last());
        assert(q.drop_last().drop_first() =~= q.drop_first().drop_last());
        assert(q.drop_first().last() == q.last());
    } else {
        assert(q.drop_first().len() == 0);
        assert(q.drop_last().len() == 0);
        assert(total(q.drop_last()) == 0);
        assert(total(q.drop_first()) == 0);
    }
}

/// One step of a session with the buffer: a line of some length offered with
/// its awaiter, or a response arriving.
pub enum Event<A> {
    Offer(A, usize),
    Response,
}

/// Unanswered lines, bytes left, and the awaiters completed so far, after
/// `events` applied to unanswered lines `q` and `rem` bytes left, each step as
/// `offer` and `on_response` perform it.
pub open spec fn replay<A>(q: Seq<(A, usize)>, rem: int, events: Seq<Event<A>>) -> (
    Seq<(A, usize)>,
    int,
    Seq<A>,
)
    decreases events.len(),
{
    if events.len() == 0 {
        (q, rem, Seq::empty())
    } else {
        let (q1, r1, done) = replay(q, rem, events.drop_last());
        match events.last() {
            Event::Offer(a, len) => if len <= r1 {
                (q1.push((a, len)), r1 - len, done)
            } else {
                (q1, r1, done)
            },
            Event::Response => if q1.len() > 0 {
                (q1.drop_first(), r1 + q1[0].1, done.push(q1[0].0))
            } else {
                (q1, r1, done)
            },
        }
    }
}

/// Awaiters of the lines that `events` admitted, in order of admission.
pub open spec fn admitted<A>(q: Seq<(A, usize)>, rem: int, events: Seq<Event<A>>) -> Seq<A>
    decreases events.len(),
{
    if events.len() == 0 {
        Seq::empty()
    } else {
        let before = admitted(q, rem, events.drop_last());
        let r1 = replay(q, rem, events.drop_last()).1;
        match events.last() {
            Event::Offer(a, len) => if len <= r1 {
                before.push(a)
            } else {
                before
            },
            Event::Response => before,
        }
    }
}

pub open spec fn awaiters<A>(q: Seq<(A, usize)>) -> Seq<A> {
    q.map_values(|p: (A, usize)| p.0)
}

/// Whatever lines are offered and responses arrive, the bytes left and the
/// bytes of unanswered lines keep adding up to the buffer's capacity.
pub proof fn lemma_budget_kept<A>(q: Seq<(A, usize)>, rem: int, events: Seq<Event<A>>)
    requires
        0 <= rem,
        rem + total(q) == BUFFER_SIZE,
    ensures
        0 <= replay(q, rem, events).1,
        replay(q, rem, events).1 + total(replay(q, rem, events).0) == BUFFER_SIZE,
    decreases events.len(),
{
    if events.len() > 0 {
        lemma_budget_kept(q, rem, events.drop_last());
        let (q1, r1, done) = replay(q, rem, events.drop_last());
        match events.last() {
            Event::Offer(a, len) => {
                if len <= r1 {
                    assert(q1.push((a, len)).drop_last() =~= q1);
                }
            },
            Event::Response => {
                if q1.len() > 0 {
                    lemma_total_drop_first(q1);
                    lemma_total_nonneg(q1.drop_first());
                }
            },
        }
    }
}

/// Responses complete awaiters in the order their lines were admitted: the
/// awaiters completed, followed by those still unanswered, are exactly those
/// that were unanswered at the start followed by those admitted since.
pub proof fn lemma_responses_in_order<A>(q: Seq<(A, usize)>, rem: int, events: Seq<Event<A>>)
    ensures
        replay(q, rem, events).2 + awaiters(replay(q, rem, events).0) == awaiters(q) + admitted(
            q,
            rem,
            events,
        ),
    decreases events.len(),
{
    if events.len() == 0 {
        assert(Seq::<A>::empty() + awaiters(q) =~= awaiters(q) + Seq::<A>::empty());
    } else {
        lemma_responses_in_order(q, rem, events.drop_last());
        let (q1, r1, done) = replay(q, rem, events.drop_last());
        let before = admitted(q, rem, events.drop_last());
        match events.last() {
            Event::Offer(a, len) => {
                if len <= r1 {
                    assert(awaiters(q1.push((a, len))) =~= awaiters(q1).push(a));
                    assert(done + awaiters(q1).push(a) =~= (done + awaiters(q1)).push(a));
                    assert(awaiters(q) + before.push(a) =~= (awaiters(q) + before).push(a));
                }
            },
            Event::Response => {
                if q1.len() > 0 {
                    assert(done.push(q1[0].0) + awaiters(q1.drop_first()) =~= done + awaiters(q1));
                }
            },
        }
    }
}

} // verus!
