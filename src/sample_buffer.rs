use vstd::prelude::*;
use std::collections::VecDeque;

verus! {

/// How the stream of decoded samples stands.
#[derive(PartialEq, Eq, Structural, Clone, Copy, Debug)]
pub enum StreamEnd {
    /// The producer may still append.
    Open,
    /// The decoder reached the end of its input.
    Finished,
    /// The decoder stopped on an error; what was appended before can still be read.
    Failed,
}

/// Why a decode unit was not appended.
#[derive(PartialEq, Eq, Structural, Clone, Copy, Debug)]
pub enum AppendError {
    /// The buffer holds the high-watermark or more: the producer must wait for a drain.
    Full,
    /// The stream has ended: nothing more is taken.
    Closed,
}

/// What one drain of the buffer did for the consumer.
#[derive(PartialEq, Eq, Structural, Clone, Copy, Debug)]
pub enum ReadStep {
    /// This many samples were moved, fewer than asked, and the stream is still open:
    /// wait for data and ask again for the rest.
    Pending(usize),
    /// This many samples were moved, and the read is over: all that was asked was
    /// given, or the stream has ended and the buffer is now empty (0 means end of data).
    Complete(usize),
}

/// The abstract state of a sample buffer.
pub struct BufferModel {
    /// Samples appended and not yet read, oldest first.
    pub pending: Seq<i16>,
    /// Every sample ever appended, in order.
    pub appended: Seq<i16>,
    /// Every sample ever handed to the consumer, in order.
    pub delivered: Seq<i16>,
    pub end: StreamEnd,
    pub watermark: nat,
    /// The size of the largest decode unit appended so far.
    pub largest_unit: nat,
}

/// One operation on a sample buffer, for stating what holds of any sequence of them.
pub enum BufferOp {
    Append(Seq<i16>),
    Read(nat),
    Finish,
    Fail,
}

pub open spec fn min_nat(a: nat, b: nat) -> nat {
    if a <= b { a } else { b }
}

pub open spec fn max_nat(a: nat, b: nat) -> nat {
    if a >= b { a } else { b }
}

impl BufferModel {
    /// A fresh session: nothing appended, stream open.
    pub open spec fn empty(watermark: nat) -> BufferModel {
        BufferModel {
            pending: Seq::empty(),
            appended: Seq::empty(),
            delivered: Seq::empty(),
            end: StreamEnd::Open,
            watermark,
            largest_unit: 0,
        }
    }

    /// What every reachable state satisfies: the samples read so far followed by those
    /// still buffered are exactly the samples appended, and the buffer never holds more
    /// than the watermark plus one decode unit.
    pub open spec fn inv(self) -> bool {
        &&& self.delivered + self.pending == self.appended
        &&& self.pending.len() <= self.watermark + self.largest_unit
    }

    pub open spec fn ended(self) -> bool {
        self.end != StreamEnd::Open
    }

    /// The producer has to wait before appending.
    pub open spec fn full(self) -> bool {
        self.pending.len() >= self.watermark
    }

    /// The consumer has to wait before it can make progress.
    pub open spec fn starved(self) -> bool {
        self.pending.len() == 0 && !self.ended()
    }

    pub open spec fn append_result(self, unit: Seq<i16>) -> Result<(), AppendError> {
        if self.ended() {
            Err(AppendError::Closed)
        } else if self.full() {
            Err(AppendError::Full)
        } else {
            Ok(())
        }
    }

    pub open spec fn after_append(self, unit: Seq<i16>) -> BufferModel {
        if self.append_result(unit) is Ok {
            BufferModel {
                pending: self.pending + unit,
                appended: self.appended + unit,
                largest_unit: max_nat(self.largest_unit, unit.len()),
                ..self
            }
        } else {
            self
        }
    }

    /// How many samples a read of `requested` moves.
    pub open spec fn read_count(self, requested: nat) -> nat {
        min_nat(requested, self.pending.len())
    }

    pub open spec fn read_result(self, requested: nat) -> ReadStep {
        let k = self.read_count(requested);
        if k == requested || self.ended() {
            ReadStep::Complete(k as usize)
        } else {
            ReadStep::Pending(k as usize)
        }
    }

    pub open spec fn after_read(self, requested: nat) -> BufferModel {
        let k = self.read_count(requested) as int;
        BufferModel {
            pending: self.pending.subrange(k, self.pending.len() as int),
            delivered: self.delivered + self.pending.subrange(0, k),
            ..self
        }
    }

    /// Ending is set at most once: a stream that has ended keeps its first end.
    pub open spec fn after_end(self, end: StreamEnd) -> BufferModel {
        if self.ended() {
            self
        } else {
            BufferModel { end, ..self }
        }
    }

    pub open spec fn apply(self, op: BufferOp) -> BufferModel {
        match op {
            BufferOp::Append(unit) => self.after_append(unit),
            BufferOp::Read(n) => self.after_read(n),
            BufferOp::Finish => self.after_end(StreamEnd::Finished),
            BufferOp::Fail => self.after_end(StreamEnd::Failed),
        }
    }
}

/// The state reached from `m` by the operations `ops`, first to last.
pub open spec fn run(m: BufferModel, ops: Seq<BufferOp>) -> BufferModel
    decreases ops.len(),
{
    if ops.len() == 0 {
        m
    } else {
        run(m.apply(ops[0]), ops.drop_first())
    }
}

proof fn lemma_step_keeps_inv(m: BufferModel, op: BufferOp)
    requires
        m.inv(),
    ensures
        m.apply(op).inv(),
{
    match op {
        BufferOp::Append(unit) => {
            if m.append_result(unit) is Ok {
                let n = m.after_append(unit);
                assert(n.delivered + n.pending =~= m.delivered + m.pending + unit);
            }
        },
        BufferOp::Read(r) => {
            let k = m.read_count(r) as int;
            let n = m.after_read(r);
            assert(n.delivered + n.pending =~= m.delivered + m.pending) by {
                assert(m.pending =~= m.pending.subrange(0, k) + m.pending.subrange(
                    k,
                    m.pending.len() as int,
                ));
            }
        },
        _ => {},
    }
}

proof fn lemma_run_keeps_inv(m: BufferModel, ops: Seq<BufferOp>)
    requires
        m.inv(),
    ensures
        run(m, ops).inv(),
    decreases ops.len(),
{
    if ops.len() > 0 {
        lemma_step_keeps_inv(m, ops[0]);
        lemma_run_keeps_inv(m.apply(ops[0]), ops.drop_first());
    }
}

/// Order and completeness: whatever appends and reads happen, the samples handed to the
/// consumer, followed by those still buffered, are the samples appended, in the order
/// they were appended; once the stream has ended and the buffer is drained, the consumer has
/// received exactly what was appended before the end.
pub proof fn lemma_fifo_order(watermark: nat, ops: Seq<BufferOp>)
    ensures
        ({
            let m = run(BufferModel::empty(watermark), ops);
            &&& m.delivered + m.pending == m.appended
            &&& (m.ended() && m.pending.len() == 0 ==> m.delivered == m.appended)
        }),
{
    let e = BufferModel::empty(watermark);
    assert(e.delivered + e.pending =~= e.appended);
    lemma_run_keeps_inv(e, ops);
    let m = run(e, ops);
    if m.pending.len() == 0 {
        assert(m.delivered + m.pending =~= m.delivered);
    }
}

/// Backpressure: whatever appends and reads happen, the buffer never holds more than the
/// high-watermark plus the size of the largest decode unit appended.
pub proof fn lemma_backpressure_bound(watermark: nat, ops: Seq<BufferOp>)
    ensures
        ({
            let m = run(BufferModel::empty(watermark), ops);
            m.pending.len() <= watermark + m.largest_unit
        }),
{
    let e = BufferModel::empty(watermark);
    assert(e.delivered + e.pending =~= e.appended);
    lemma_run_keeps_inv(e, ops);
    lemma_run_keeps_watermark(e, ops);
}

proof fn lemma_run_keeps_watermark(m: BufferModel, ops: Seq<BufferOp>)
    ensures
        run(m, ops).watermark == m.watermark,
    decreases ops.len(),
{
    if ops.len() > 0 {
        lemma_run_keeps_watermark(m.apply(ops[0]), ops.drop_first());
    }
}

/// End of stream is terminal: once the stream has ended, no sequence of operations
/// reopens it or changes how it ended, nothing more is appended, and once the buffer is
/// also empty it stays empty and every read completes with 0 samples.
pub proof fn lemma_end_is_terminal(m: BufferModel, ops: Seq<BufferOp>, requested: nat)
    requires
        m.ended(),
    ensures
        run(m, ops).end == m.end,
        run(m, ops).appended == m.appended,
        m.pending.len() == 0 ==> run(m, ops).pending.len() == 0,
        m.pending.len() == 0 ==> run(m, ops).read_result(requested) == ReadStep::Complete(0),
    decreases ops.len(),
{
    if ops.len() > 0 {
        let n = m.apply(ops[0]);
        if m.pending.len() == 0 {
            assert(n.pending.len() == 0);
        }
        lemma_end_is_terminal(n, ops.drop_first(), requested);
    }
}

/// No lost wakeup: right after a non-empty decode unit is appended, a consumer that
/// checks whether it must wait finds that it need not, and a read of at least one
/// sample moves at least one.
pub proof fn lemma_append_is_visible(m: BufferModel, unit: Seq<i16>, requested: nat)
    requires
        m.append_result(unit) is Ok,
        unit.len() > 0,
        requested > 0,
    ensures
        !m.after_append(unit).starved(),
        m.after_append(unit).read_count(requested) > 0,
{
}

/// A bounded FIFO of samples shared by one decoder and one consumer, with the end of
/// stream flag. The waiting itself belongs to whoever holds the lock around it; this
/// type decides what each side may do and does it.
pub struct SampleBuffer {
    samples: VecDeque<i16>,
    end: StreamEnd,
    watermark: usize,
    appended: Ghost<Seq<i16>>,
    delivered: Ghost<Seq<i16>>,
    largest_unit: Ghost<nat>,
}

impl View for SampleBuffer {
    type V = BufferModel;

    closed spec fn view(&self) -> BufferModel {
        BufferModel {
            pending: self.samples@,
            appended: self.appended@,
            delivered: self.delivered@,
            end: self.end,
            watermark: self.watermark as nat,
            largest_unit: self.largest_unit@,
        }
    }
}

impl SampleBuffer {
    pub open spec fn wf(&self) -> bool {
        self@.inv()
    }

    /// An empty buffer for a new session, with the given high-watermark in samples.
    pub fn new(watermark: usize) -> (r: SampleBuffer)
        ensures
            r@ == BufferModel::empty(watermark as nat),
            r.wf(),
    {
        let r = SampleBuffer {
            samples: VecDeque::new(),
            end: StreamEnd::Open,
            watermark,
            appended: Ghost(Seq::empty()),
            delivered: Ghost(Seq::empty()),
            largest_unit: Ghost(0),
        };
        assert(r@.delivered + r@.pending =~= r@.appended);
        r
    }

    pub fn len(&self) -> (r: usize)
        ensures
            r == self@.pending.len(),
    {
        self.samples.len()
    }

    pub fn watermark(&self) -> (r: usize)
        ensures
            r == self@.watermark,
    {
        self.watermark
    }

    pub fn end(&self) -> (r: StreamEnd)
        ensures
            r == self@.end,
    {
        self.end
    }

    pub fn is_ended(&self) -> (r: bool)
        ensures
            r == self@.ended(),
    {
        self.end != StreamEnd::Open
    }

    /// The producer must wait for a drain before its next append.
    pub fn producer_must_wait(&self) -> (r: bool)
        ensures
            r == (self@.full() && !self@.ended()),
    {
        self.samples.len() >= self.watermark && self.end == StreamEnd::Open
    }

    /// The consumer must wait for data or for the end of the stream.
    pub fn consumer_must_wait(&self) -> (r: bool)
        ensures
            r == self@.starved(),
    {
        self.samples.len() == 0 && self.end == StreamEnd::Open
    }

    /// Appends one decode unit at the back, in order, as a single operation. It is taken
    /// only while the stream is open and the buffer is below its high-watermark.
    pub fn append_unit(&mut self, unit: &Vec<i16>) -> (r: Result<(), AppendError>)
        requires
            old(self).wf(),
        ensures
            r == old(self)@.append_result(unit@),
            final(self)@ == old(self)@.after_append(unit@),
            final(self).wf(),
    {
        if self.end != StreamEnd::Open {
            return Err(AppendError::Closed);
        }
        if self.samples.len() >= self.watermark {
            return Err(AppendError::Full);
        }
        let ghost before = self.samples@;
        let mut i: usize = 0;
        while i < unit.len()
            invariant
                0 <= i <= unit@.len(),
                self.samples@ == before + unit@.subrange(0, i as int),
                self.end == old(self).end,
                self.watermark == old(self).watermark,
                self.appended == old(self).appended,
                self.delivered == old(self).delivered,
                self.largest_unit == old(self).largest_unit,
            decreases unit@.len() - i,
        {
            self.samples.push_back(unit[i]);
            assert(unit@.subrange(0, i as int + 1) =~= unit@.subrange(0, i as int).push(unit@[i as int]));
            i = i + 1;
        }
        assert(unit@.subrange(0, unit@.len() as int) =~= unit@);
        self.appended = Ghost(self.appended@ + unit@);
        self.largest_unit = Ghost(max_nat(self.largest_unit@, unit@.len()));
        proof {
            lemma_step_keeps_inv(old(self)@, BufferOp::Append(unit@));
        }
        Ok(())
    }

    /// Moves up to `requested` samples from the front of the buffer to the back of `out`,
    /// oldest first, and says whether the read is over.
    pub fn read_available(&mut self, out: &mut Vec<i16>, requested: usize) -> (r: ReadStep)
        requires
            old(self).wf(),
        ensures
            r == old(self)@.read_result(requested as nat),
            final(self)@ == old(self)@.after_read(requested as nat),
            final(out)@ == old(out)@ + old(self)@.pending.subrange(
                0,
                old(self)@.read_count(requested as nat) as int,
            ),
            final(self).wf(),
    {
        let k: usize = if requested <= self.samples.len() {
            requested
        } else {
            self.samples.len()
        };
        let ghost before = self.samples@;
        let ghost out0 = out@;
        let mut i: usize = 0;
        while i < k
            invariant
                0 <= i <= k,
                k <= before.len(),
                self.samples@ == before.subrange(i as int, before.len() as int),
                out@ == out0 + before.subrange(0, i as int),
                self.end == old(self).end,
                self.watermark == old(self).watermark,
                self.appended == old(self).appended,
                self.delivered == old(self).delivered,
                self.largest_unit == old(self).largest_unit,
            decreases k - i,
        {
            let s = self.samples.pop_front();
            match s {
                Some(x) => {
                    out.push(x);
                },
                None => {},
            }
            assert(before.subrange(0, i as int + 1) =~= before.subrange(0, i as int).push(
                before[i as int],
            ));
            assert(before.subrange(i as int + 1, before.len() as int) =~= before.subrange(
                i as int,
                before.len() as int,
            ).subrange(1, before.len() - i));
            i = i + 1;
        }
        self.delivered = Ghost(self.delivered@ + before.subrange(0, k as int));
        proof {
            lemma_step_keeps_inv(old(self)@, BufferOp::Read(requested as nat));
        }
        if k == requested || self.end != StreamEnd::Open {
            ReadStep::Complete(k)
        } else {
            ReadStep::Pending(k)
        }
    }

    /// The decoder reached the end of its input. Has no effect once the stream has ended.
    pub fn finish(&mut self)
        requires
            old(self).wf(),
        ensures
            final(self)@ == old(self)@.after_end(StreamEnd::Finished),
            final(self).wf(),
    {
        if self.end == StreamEnd::Open {
            self.end = StreamEnd::Finished;
        }
    }

    /// The decoder stopped on an error. The stream ends here, so that the consumer drains
    /// what was appended and then sees the end instead of waiting for ever. Has no effect
    /// once the stream has ended.
    pub fn fail(&mut self)
        requires
            old(self).wf(),
        ensures
            final(self)@ == old(self)@.after_end(StreamEnd::Failed),
            final(self).wf(),
    {
        if self.end == StreamEnd::Open {
            self.end = StreamEnd::Failed;
        }
    }
}

} // verus!
