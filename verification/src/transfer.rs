//! A call as a run of bus operations.
//!
//! A [`Transfer`] holds the operations that a call still has to ask of the
//! bus. The code that owns the bus hands it the outcome of the operation
//! before, and is told what to do next: another operation, or to return.

use crate::color::Color;
use crate::driver::Ws2812;
use crate::frame::encoded;
use vstd::prelude::*;

verus! {

/// What a write puts on the bus.
#[derive(Clone, Copy, Debug, PartialEq, Eq, Structural)]
pub enum Payload {
    /// The filler: one byte that goes ahead of a call, so that a bus with
    /// room for a single byte always has one under way.
    Filler,
    /// The blank buffer, whose low level lasts long enough for the strip to
    /// latch what it was sent.
    Blank,
    /// The whole output buffer.
    Data,
}

/// The length of the blank buffer.
pub const BLANK_LEN: usize = 140;

/// The length of the filler, and the number of bytes that a read takes back.
pub const FILLER_LEN: usize = 1;

/// The bytes of the blank buffer: all zero.
pub open spec fn blank_bytes() -> Seq<u8> {
    Seq::new(BLANK_LEN as nat, |i: int| 0u8)
}

/// The bytes of the filler: one zero.
pub open spec fn filler_bytes() -> Seq<u8> {
    Seq::new(FILLER_LEN as nat, |i: int| 0u8)
}

/// The bytes that a write of `payload` puts on the bus while the output
/// buffer holds `buffer`.
pub open spec fn payload_bytes(buffer: Seq<u8>, payload: Payload) -> Seq<u8> {
    match payload {
        Payload::Filler => filler_bytes(),
        Payload::Blank => blank_bytes(),
        Payload::Data => buffer,
    }
}

/// One operation on the bus.
#[derive(Clone, Copy, Debug, PartialEq, Eq, Structural)]
pub enum BusOp {
    /// Write the payload and wait until the bus has taken it.
    Write(Payload),
    /// Read as many bytes as the filler has and drop them.
    Read,
}

/// What the owner of the bus does next.
#[derive(Debug, PartialEq, Eq)]
pub enum Action<E> {
    /// Perform the operation, then report its outcome.
    Perform(BusOp),
    /// The call is over: return this.
    Finish(Result<(), E>),
}

/// The longest run of operations that a call consists of.
const MAX_OPS: usize = 5;

/// The operations of a reset: the blank buffer alone.
pub open spec fn reset_ops() -> Seq<BusOp> {
    seq![BusOp::Write(Payload::Blank)]
}

/// The operations that send the colours: the output buffer, then a reset.
pub open spec fn colors_ops() -> Seq<BusOp> {
    seq![BusOp::Write(Payload::Data)] + reset_ops()
}

/// The operations of a framed call: the filler, a reset where the line idles
/// high, the colours, and a read that takes the filler's byte back.
pub open spec fn framed_ops(idle_high: bool) -> Seq<BusOp> {
    seq![BusOp::Write(Payload::Filler)] + (if idle_high {
        reset_ops()
    } else {
        Seq::empty()
    }) + colors_ops() + seq![BusOp::Read]
}

/// What follows the outcome `last` when `ops` are still to be asked for: a
/// failure ends the call and is handed on as it came; after a success the
/// first of `ops` is due, and with none left the call has succeeded.
pub open spec fn next_action<E>(ops: Seq<BusOp>, last: Result<(), E>) -> Action<E> {
    match last {
        Err(e) => Action::Finish(Err(e)),
        Ok(_) => if ops.len() > 0 {
            Action::Perform(ops[0])
        } else {
            Action::Finish(Ok(()))
        },
    }
}

/// The operations that are still to be asked for after the outcome `last`:
/// none after a failure, all but the first after a success.
pub open spec fn next_ops<E>(ops: Seq<BusOp>, last: Result<(), E>) -> Seq<BusOp> {
    match last {
        Err(_) => Seq::empty(),
        Ok(_) => if ops.len() > 0 {
            ops.drop_first()
        } else {
            ops
        },
    }
}

/// The buffer after `action` was handed out: the data is encoded just before
/// it is written, and at no other time.
pub open spec fn buffer_after<E>(buffer: Seq<u8>, colors: Seq<Color>, action: Action<E>) -> Seq<u8> {
    if action == Action::<E>::Perform(BusOp::Write(Payload::Data)) {
        encoded(buffer, colors)
    } else {
        buffer
    }
}

/// What comes of a call that is driven to its end: the operations that are
/// asked of the bus, in order, and what the call returns. `last` is the
/// outcome that the next step takes, and `answers` are the outcomes of the
/// operations asked for from then on, one after the other.
pub open spec fn driven<E>(ops: Seq<BusOp>, last: Result<(), E>, answers: Seq<Result<(), E>>) -> (
    Seq<BusOp>,
    Result<(), E>,
)
    decreases ops.len(),
{
    match next_action(ops, last) {
        Action::Finish(result) => (Seq::empty(), result),
        Action::Perform(op) => {
            let rest = driven(next_ops(ops, last), answers.first(), answers.drop_first());
            (seq![op] + rest.0, rest.1)
        },
    }
}

/// A call whose operations all succeed asks for each of them, in order, and
/// returns success.
pub proof fn lemma_driven_to_end<E>(
    ops: Seq<BusOp>,
    last: Result<(), E>,
    answers: Seq<Result<(), E>>,
)
    requires
        last is Ok,
        ops.len() <= answers.len(),
        forall|k: int| 0 <= k < ops.len() ==> answers[k] is Ok,
    ensures
        driven(ops, last, answers) == (ops, Ok::<(), E>(())),
    decreases ops.len(),
{
    if ops.len() > 0 {
        lemma_driven_to_end(ops.drop_first(), answers.first(), answers.drop_first());
        assert(seq![ops[0]] + ops.drop_first() =~= ops);
    }
}

/// A call whose operation `failed` is the first to fail asks for the
/// operations up to that one and for none behind it, and returns that
/// failure as the bus gave it.
pub proof fn lemma_driven_to_failure<E>(
    ops: Seq<BusOp>,
    last: Result<(), E>,
    answers: Seq<Result<(), E>>,
    failed: int,
)
    requires
        last is Ok,
        0 <= failed < ops.len(),
        failed < answers.len(),
        answers[failed] is Err,
        forall|k: int| 0 <= k < failed ==> answers[k] is Ok,
    ensures
        driven(ops, last, answers) == (ops.take(failed + 1), answers[failed]),
    decreases ops.len(),
{
    if failed == 0 {
        assert(driven(ops.drop_first(), answers.first(), answers.drop_first()) == (
            Seq::<BusOp>::empty(),
            answers[0],
        ));
        assert(seq![ops[0]] + Seq::<BusOp>::empty() =~= ops.take(1));
    } else {
        lemma_driven_to_failure(ops.drop_first(), answers.first(), answers.drop_first(), failed - 1);
        assert(seq![ops[0]] + ops.drop_first().take(failed) =~= ops.take(failed + 1));
    }
}

/// The bytes that the writes of a call put on the bus, write by write, where
/// every operation succeeds. `buffer` is what the output buffer holds when
/// the first of `ops` falls due.
pub open spec fn written(buffer: Seq<u8>, colors: Seq<Color>, ops: Seq<BusOp>) -> Seq<Seq<u8>>
    decreases ops.len(),
{
    if ops.len() == 0 {
        Seq::empty()
    } else {
        let now = buffer_after(buffer, colors, Action::<()>::Perform(ops[0]));
        let rest = written(now, colors, ops.drop_first());
        match ops[0] {
            BusOp::Write(payload) => seq![payload_bytes(now, payload)] + rest,
            BusOp::Read => rest,
        }
    }
}

/// What each kind of call puts on the bus where nothing fails: a reset the
/// blank buffer; the colours the output buffer with the colours encoded
/// into it, then the blank buffer; a framed call the filler ahead of the
/// colours, and ahead of them the blank buffer too where the line idles
/// high.
pub proof fn lemma_written(buffer: Seq<u8>, colors: Seq<Color>, idle_high: bool)
    ensures
        written(buffer, colors, reset_ops()) == seq![blank_bytes()],
        written(buffer, colors, colors_ops()) == seq![encoded(buffer, colors), blank_bytes()],
        written(buffer, colors, framed_ops(idle_high)) == if idle_high {
            seq![filler_bytes(), blank_bytes(), encoded(buffer, colors), blank_bytes()]
        } else {
            seq![filler_bytes(), encoded(buffer, colors), blank_bytes()]
        },
{
    reveal_with_fuel(written, 6);
}

/// In each kind of call, the write of the output buffer is followed at once
/// by a reset.
pub proof fn lemma_reset_follows_data(idle_high: bool, i: int)
    ensures
        0 <= i < colors_ops().len() && colors_ops()[i] == BusOp::Write(Payload::Data) ==> i + 1
            < colors_ops().len() && colors_ops()[i + 1] == BusOp::Write(Payload::Blank),
        0 <= i < framed_ops(idle_high).len() && framed_ops(idle_high)[i] == BusOp::Write(
            Payload::Data,
        ) ==> i + 1 < framed_ops(idle_high).len() && framed_ops(idle_high)[i + 1] == BusOp::Write(
            Payload::Blank,
        ),
{
}

/// A framed call writes the filler once, as its first operation, and reads
/// it back once, as its last; the output buffer is written once, between
/// the two.
pub proof fn lemma_framing(idle_high: bool)
    ensures
        forall|i: int|
            0 <= i < framed_ops(idle_high).len() ==> (framed_ops(idle_high)[i] == BusOp::Write(
                Payload::Filler,
            ) <==> i == 0),
        forall|i: int|
            0 <= i < framed_ops(idle_high).len() ==> (framed_ops(idle_high)[i] == BusOp::Read <==> i
                == framed_ops(idle_high).len() - 1),
        forall|i: int|
            0 <= i < framed_ops(idle_high).len() ==> (framed_ops(idle_high)[i] == BusOp::Write(
                Payload::Data,
            ) <==> i == framed_ops(idle_high).len() - 3),
        framed_ops(idle_high).len() == if idle_high {
            5int
        } else {
            4int
        },
{
}

/// A call under way: the colours that it sends, and the bus operations that
/// it has yet to ask for, in order.
///
/// Its view is the operations.
#[derive(Clone, Copy, Debug)]
pub struct Transfer<'a> {
    colors: &'a [Color],
    ops: [BusOp; MAX_OPS],
    next: usize,
    end: usize,
}

impl<'a> View for Transfer<'a> {
    type V = Seq<BusOp>;

    closed spec fn view(&self) -> Seq<BusOp> {
        self.ops@.subrange(self.next as int, self.end as int)
    }
}

impl<'a> Transfer<'a> {
    #[verifier::type_invariant]
    spec fn well_formed(self) -> bool {
        self.next <= self.end <= MAX_OPS
    }

    /// The colours that the call sends.
    pub closed spec fn colors(&self) -> Seq<Color> {
        self.colors@
    }

    /// A transfer with nothing to ask for.
    fn empty(colors: &'a [Color]) -> (transfer: Transfer<'a>)
        ensures
            transfer@ == Seq::<BusOp>::empty(),
            transfer.colors() == colors@,
            transfer.next == 0,
            transfer.end == 0,
    {
        Transfer { colors, ops: [BusOp::Read;MAX_OPS], next: 0, end: 0 }
    }

    /// Puts `op` behind the operations that the transfer holds.
    fn push(&mut self, op: BusOp)
        requires
            old(self).next == 0,
            old(self).end < MAX_OPS,
        ensures
            final(self)@ == old(self)@.push(op),
            final(self).colors() == old(self).colors(),
            final(self).next == 0,
            final(self).end == old(self).end + 1,
    {
        self.ops[self.end] = op;
        self.end += 1;
    }

    /// The transfer of a reset.
    pub(crate) fn of_reset() -> (transfer: Transfer<'static>)
        ensures
            transfer@ == reset_ops(),
            transfer.colors() == Seq::<Color>::empty(),
    {
        let mut transfer = Transfer::empty(&[]);
        transfer.push(BusOp::Write(Payload::Blank));
        transfer
    }

    /// The transfer that sends the colours.
    pub(crate) fn of_colors(colors: &'a [Color]) -> (transfer: Transfer<'a>)
        ensures
            transfer@ == colors_ops(),
            transfer.colors() == colors@,
    {
        let mut transfer = Transfer::empty(colors);
        transfer.push(BusOp::Write(Payload::Data));
        transfer.push(BusOp::Write(Payload::Blank));
        transfer
    }

    /// The transfer of a framed call.
    pub(crate) fn of_framed(colors: &'a [Color], idle_high: bool) -> (transfer: Transfer<'a>)
        ensures
            transfer@ == framed_ops(idle_high),
            transfer.colors() == colors@,
    {
        let mut transfer = Transfer::empty(colors);
        transfer.push(BusOp::Write(Payload::Filler));
        if idle_high {
            transfer.push(BusOp::Write(Payload::Blank));
        }
        transfer.push(BusOp::Write(Payload::Data));
        transfer.push(BusOp::Write(Payload::Blank));
        transfer.push(BusOp::Read);
        transfer
    }

    /// Takes the outcome of the operation that was performed last, or
    /// `Ok(())` where the call has only begun, and says what to do next.
    ///
    /// A failure ends the call: it is handed back unchanged, and nothing is
    /// asked of the bus any more. After a success the next operation is
    /// due; when none is left the call has succeeded. Where the operation
    /// due is the write of the output buffer, the colours are encoded into
    /// the driver's buffer first; no other step touches the buffer.
    pub fn step<const N: usize, E>(&mut self, driver: &mut Ws2812<N>, last: Result<(), E>) -> (action:
        Action<E>)
        ensures
            action == next_action(old(self)@, last),
            final(self)@ == next_ops(old(self)@, last),
            final(self).colors() == old(self).colors(),
            final(driver)@ == buffer_after(old(driver)@, old(self).colors(), action),
            final(driver).mosi_idle_high() == old(driver).mosi_idle_high(),
    {
        proof {
            use_type_invariant(&*self);
        }
        match last {
            Err(e) => {
                self.next = self.end;
                Action::Finish(Err(e))
            },
            Ok(()) => {
                if self.next < self.end {
                    let op = self.ops[self.next];
                    self.next += 1;
                    match op {
                        BusOp::Write(Payload::Data) => {
                            driver.encode(self.colors);
                        },
                        _ => {},
                    }
                    Action::Perform(op)
                } else {
                    Action::Finish(Ok(()))
                }
            },
        }
    }
}

} // verus!
