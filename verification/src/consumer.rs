//! The consumer: a read cursor per partition, a poll/deliver/backoff step
//! driven by poll outcomes, and a partition-log model against which the
//! cursor discipline is verified: the cursor only ever advances, it advances
//! only past messages actually delivered, and draining a log delivers every
//! offset exactly once, in order, whatever the batch size.

use vstd::prelude::*;
use vstd::math::min;
use crate::errors::ClientError;

verus! {

/// Who tracks the read position. The two strategies are not interchangeable
/// on one cursor: explicit-offset redelivers after a crash (at-least-once),
/// next-unread trusts the broker's bookkeeping (at-most-once risk).
#[derive(Copy, Clone, PartialEq, Eq, Structural, Debug)]
pub enum PollStrategy {
    /// The broker tracks the offset, keyed by consumer identity.
    NextUnread,
    /// The client sends `next_offset` on every poll and alone advances it.
    ExplicitOffset,
}

/// The consumer's read cursor for one partition.
pub struct Cursor {
    pub partition_id: u32,
    pub next_offset: u64,
    pub strategy: PollStrategy,
}

impl Cursor {
    /// A cursor at the start of the partition.
    pub fn new(partition_id: u32, strategy: PollStrategy) -> (r: Cursor)
        ensures
            r.partition_id == partition_id,
            r.next_offset == 0,
            r.strategy == strategy,
    {
        Cursor { partition_id, next_offset: 0, strategy }
    }
}

/// One polled message: its offset in the partition and its decoded payload.
pub struct InboundMessage {
    pub offset: u64,
    pub payload: Vec<u8>,
}

/// Offsets strictly increase along the batch.
pub open spec fn batch_ascending(b: Seq<InboundMessage>) -> bool {
    forall|i: int, j: int| 0 <= i < j < b.len() ==> b[i].offset < b[j].offset
}

/// A batch the consumer accepts at cursor position `next`: ascending, not
/// reaching back before the cursor, and leaving room to advance past its
/// last offset.
pub open spec fn valid_batch(next: u64, b: Seq<InboundMessage>) -> bool {
    &&& batch_ascending(b)
    &&& (b.len() > 0 ==> b[0].offset >= next && b.last().offset < u64::MAX)
}

/// Where the cursor stands after one poll: one past the last delivered
/// offset for a delivering poll under the explicit-offset strategy, and
/// unchanged otherwise (empty or rejected batch, or broker-tracked offset).
pub open spec fn next_after(next: u64, strategy: PollStrategy, b: Seq<InboundMessage>) -> u64 {
    if valid_batch(next, b) && b.len() > 0 && strategy == PollStrategy::ExplicitOffset {
        (b.last().offset + 1) as u64
    } else {
        next
    }
}

/// What one poll attempt produced.
pub enum PollOutcome {
    /// The poll answered with messages (possibly none).
    Batch(Vec<InboundMessage>),
    /// The poll answered with no message body at all.
    Empty,
    /// The poll failed at the transport level.
    Failed,
}

/// What the loop does after a step.
#[derive(Copy, Clone, PartialEq, Eq, Structural, Debug)]
pub enum LoopAction {
    /// Poll again at once.
    Continue,
    /// Sleep one poll interval, then poll again.
    Backoff,
}

/// The result of one consumer step: what was delivered to the output sink,
/// what the loop does next, and the error to log, if any.
pub struct StepResult {
    pub delivered: Vec<InboundMessage>,
    pub action: LoopAction,
    pub error: Option<ClientError>,
}

fn check_batch(next: u64, batch: &Vec<InboundMessage>) -> (ok: bool)
    ensures
        ok == valid_batch(next, batch@),
{
    let n = batch.len();
    if n == 0 {
        return true;
    }
    if batch[0].offset < next {
        return false;
    }
    if batch[n - 1].offset == u64::MAX {
        return false;
    }
    let mut i: usize = 1;
    while i < n
        invariant
            n == batch@.len(),
            1 <= i <= n,
            forall|p: int, q: int| 0 <= p < q < i ==> batch@[p].offset < batch@[q].offset,
        decreases n - i,
    {
        if batch[i - 1].offset >= batch[i].offset {
            return false;
        }
        proof {
            assert forall|p: int, q: int| 0 <= p < q < i + 1 implies batch@[p].offset
                < batch@[q].offset by {
                if q == i {
                    if p < i - 1 {
                        assert(batch@[p].offset < batch@[i - 1].offset);
                    }
                }
            }
        }
        i = i + 1;
    }
    true
}

/// One step of the consumer's poll/deliver/backoff machine. A batch is
/// delivered whole, in ascending offset order, and only then is the cursor
/// advanced — to exactly one past the highest delivered offset, and only
/// under the explicit-offset strategy. An empty answer backs off quietly; a
/// failed or malformed answer backs off with a poll error to log. The
/// cursor never moves backward, and never moves at all unless messages were
/// delivered.
pub fn consume_step(cursor: &mut Cursor, outcome: PollOutcome) -> (r: StepResult)
    ensures
        final(cursor).partition_id == old(cursor).partition_id,
        final(cursor).strategy == old(cursor).strategy,
        final(cursor).next_offset >= old(cursor).next_offset,
        match outcome {
            PollOutcome::Empty => {
                &&& final(cursor).next_offset == old(cursor).next_offset
                &&& r.delivered@.len() == 0
                &&& r.action == LoopAction::Backoff
                &&& r.error is None
            },
            PollOutcome::Failed => {
                &&& final(cursor).next_offset == old(cursor).next_offset
                &&& r.delivered@.len() == 0
                &&& r.action == LoopAction::Backoff
                &&& r.error == Some(ClientError::PollError)
            },
            PollOutcome::Batch(b) => {
                &&& final(cursor).next_offset == next_after(
                    old(cursor).next_offset,
                    old(cursor).strategy,
                    b@,
                )
                &&& if !valid_batch(old(cursor).next_offset, b@) {
                    &&& r.delivered@.len() == 0
                    &&& r.action == LoopAction::Backoff
                    &&& r.error == Some(ClientError::PollError)
                } else if b@.len() == 0 {
                    &&& r.delivered@.len() == 0
                    &&& r.action == LoopAction::Backoff
                    &&& r.error is None
                } else {
                    &&& r.delivered == b
                    &&& r.action == LoopAction::Continue
                    &&& r.error is None
                }
            },
        },
{
    match outcome {
        PollOutcome::Empty => StepResult {
            delivered: Vec::new(),
            action: LoopAction::Backoff,
            error: None,
        },
        PollOutcome::Failed => StepResult {
            delivered: Vec::new(),
            action: LoopAction::Backoff,
            error: Some(ClientError::PollError),
        },
        PollOutcome::Batch(b) => {
            if !check_batch(cursor.next_offset, &b) {
                StepResult {
                    delivered: Vec::new(),
                    action: LoopAction::Backoff,
                    error: Some(ClientError::PollError),
                }
            } else if b.len() == 0 {
                StepResult { delivered: Vec::new(), action: LoopAction::Backoff, error: None }
            } else {
                match cursor.strategy {
                    PollStrategy::ExplicitOffset => {
                        cursor.next_offset = b[b.len() - 1].offset + 1;
                    },
                    PollStrategy::NextUnread => {},
                }
                StepResult { delivered: b, action: LoopAction::Continue, error: None }
            }
        },
    }
}

/// The sleep the loop owes after a step: one poll interval after a backoff
/// (an empty topic sleeps rather than erroring), nothing after a delivering
/// step, which polls again at once.
pub fn backoff_delay_ms(action: LoopAction, poll_interval_ms: u64) -> (r: Option<u64>)
    ensures
        action == LoopAction::Backoff ==> r == Some(poll_interval_ms),
        action == LoopAction::Continue ==> r is None,
{
    match action {
        LoopAction::Backoff => Some(poll_interval_ms),
        LoopAction::Continue => None,
    }
}

/// The cursor after a whole sequence of polls.
pub open spec fn offset_after_polls(
    next: u64,
    strategy: PollStrategy,
    batches: Seq<Seq<InboundMessage>>,
) -> u64
    decreases batches.len(),
{
    if batches.len() == 0 {
        next
    } else {
        offset_after_polls(next_after(next, strategy, batches[0]), strategy, batches.drop_first())
    }
}

/// Law: cursor monotonicity — over any sequence of polls, whatever each one
/// answered, the cursor never decreases; and each single delivering poll
/// leaves it exactly at one past the highest offset it delivered
/// (`next_after`), the highest being the last of the ascending batch.
pub proof fn lemma_cursor_monotonic(
    next: u64,
    strategy: PollStrategy,
    batches: Seq<Seq<InboundMessage>>,
)
    ensures
        offset_after_polls(next, strategy, batches) >= next,
    decreases batches.len(),
{
    if batches.len() > 0 {
        let b = batches[0];
        if valid_batch(next, b) && b.len() > 0 {
            assert(b[0].offset <= b.last().offset);
        }
        lemma_cursor_monotonic(next_after(next, strategy, b), strategy, batches.drop_first());
    }
}

/// Law: the last offset of an accepted batch is its maximum, so "one past
/// the last delivered offset" is "one past the highest delivered offset".
pub proof fn lemma_last_is_max(b: Seq<InboundMessage>)
    requires
        batch_ascending(b),
        b.len() > 0,
    ensures
        forall|i: int| 0 <= i < b.len() ==> b[i].offset <= b.last().offset,
{
}

/// Law: at-least-once under crash recovery — after a delivering poll the
/// first undelivered offset is exactly one past the batch's last offset,
/// which is where the cursor now stands; so a restart that resumes at or
/// before the saved cursor position never skips an undelivered message.
pub proof fn lemma_at_least_once(next: u64, b: Seq<InboundMessage>, resume: u64)
    requires
        valid_batch(next, b),
        b.len() > 0,
        resume <= next_after(next, PollStrategy::ExplicitOffset, b),
    ensures
        resume <= b.last().offset + 1,
{
}

/// A partition: an ordered append-log of payloads whose offsets are the
/// zero-based positions. This is the model the consumer's guarantees are
/// stated against.
pub struct PartitionLog {
    entries: Vec<Vec<u8>>,
}

impl View for PartitionLog {
    type V = Seq<Seq<u8>>;

    closed spec fn view(&self) -> Seq<Seq<u8>> {
        self.entries@.map_values(|e: Vec<u8>| e@)
    }
}

/// Copies a byte payload.
fn copy_bytes(src: &Vec<u8>) -> (r: Vec<u8>)
    ensures
        r@ == src@,
{
    let mut r: Vec<u8> = Vec::new();
    let n = src.len();
    let mut i: usize = 0;
    while i < n
        invariant
            n == src@.len(),
            i <= n,
            r@ == src@.subrange(0, i as int),
        decreases n - i,
    {
        r.push(src[i]);
        proof {
            assert(src@.subrange(0, i as int + 1) =~= src@.subrange(0, i as int).push(
                src@[i as int],
            ));
        }
        i = i + 1;
    }
    proof {
        assert(src@.subrange(0, n as int) =~= src@);
    }
    r
}

impl PartitionLog {
    /// An empty partition.
    pub fn new() -> (r: PartitionLog)
        ensures
            r@ =~= Seq::<Seq<u8>>::empty(),
    {
        PartitionLog { entries: Vec::new() }
    }

    /// How many messages the partition holds.
    pub fn len(&self) -> (n: usize)
        ensures
            n == self@.len(),
    {
        self.entries.len()
    }

    /// Appends a payload at the next offset.
    pub fn append(&mut self, payload: Vec<u8>)
        ensures
            final(self)@ =~= old(self)@.push(payload@),
    {
        self.entries.push(payload);
        proof {
            assert(self@ =~= old(self)@.push(self.entries@.last()@));
        }
    }

    /// A bounded poll: at most `count` messages starting at offset `from`,
    /// in ascending offset order; none when `from` is past the end.
    pub fn poll(&self, from: u64, count: u32) -> (batch: Vec<InboundMessage>)
        ensures
            from < self@.len() ==> batch@.len() == min(count as int, self@.len() - from),
            from >= self@.len() ==> batch@.len() == 0,
            forall|i: int|
                0 <= i < batch@.len() ==> (#[trigger] batch@[i]).offset == from + i
                    && batch@[i].payload@ == self@[from as int + i],
    {
        let mut batch: Vec<InboundMessage> = Vec::new();
        let n = self.entries.len();
        if from >= n as u64 {
            return batch;
        }
        let start = from as usize;
        let mut i: usize = 0;
        while i < count as usize && start + i < n
            invariant
                n == self.entries.len(),
                self@.len() == n,
                from < n as u64,
                start as u64 == from,
                start < n,
                i <= count,
                start + i <= n,
                batch@.len() == i,
                forall|k: int|
                    0 <= k < i ==> (#[trigger] batch@[k]).offset == from + k
                        && batch@[k].payload@ == self@[from as int + k],
            decreases n - (start + i),
    {
            let payload = copy_bytes(&self.entries[start + i]);
            batch.push(InboundMessage { offset: from + (i as u64), payload });
            i = i + 1;
        }
        batch
    }
}

/// Drains a partition from the cursor position under the explicit-offset
/// strategy: polls in batches of `batch_size` until a poll comes back empty.
/// Every offset from the starting cursor to the end of the log is delivered
/// exactly once, in ascending order, whatever the batch size; the cursor
/// ends at the end of the log, and a poll there returns nothing more.
pub fn drain(log: &PartitionLog, cursor: &mut Cursor, batch_size: u32) -> (delivered: Vec<
    InboundMessage,
>)
    requires
        old(cursor).strategy == PollStrategy::ExplicitOffset,
        old(cursor).next_offset <= log@.len(),
        log@.len() < u64::MAX,
        batch_size >= 1,
    ensures
        final(cursor).next_offset == log@.len(),
        final(cursor).partition_id == old(cursor).partition_id,
        final(cursor).strategy == old(cursor).strategy,
        delivered@.len() == log@.len() - old(cursor).next_offset,
        forall|i: int|
            0 <= i < delivered@.len() ==> (#[trigger] delivered@[i]).offset == old(
                cursor,
            ).next_offset + i && delivered@[i].payload@ == log@[old(cursor).next_offset + i],
{
    let mut delivered: Vec<InboundMessage> = Vec::new();
    loop
        invariant
            old(cursor).strategy == PollStrategy::ExplicitOffset,
            cursor.strategy == PollStrategy::ExplicitOffset,
            cursor.partition_id == old(cursor).partition_id,
            old(cursor).next_offset <= cursor.next_offset <= log@.len(),
            log@.len() < u64::MAX,
            batch_size >= 1,
            delivered@.len() == cursor.next_offset - old(cursor).next_offset,
            forall|i: int|
                0 <= i < delivered@.len() ==> (#[trigger] delivered@[i]).offset == old(
                    cursor,
                ).next_offset + i && delivered@[i].payload@ == log@[old(cursor).next_offset + i],
        decreases log@.len() - cursor.next_offset,
    {
        let before = cursor.next_offset;
        let batch = log.poll(before, batch_size);
        let mut r = consume_step(cursor, PollOutcome::Batch(batch));
        match r.action {
            LoopAction::Backoff => {
                return delivered;
            },
            LoopAction::Continue => {
                delivered.append(&mut r.delivered);
            },
        }
    }
}

} // verus!
