//! The sink side of the queue: the messages waiting to be sent, the sends
//! under way, and the delay that a message is sent with.
use vstd::prelude::*;

use std::collections::VecDeque;

use std::time::{SystemTime, UNIX_EPOCH};

use chrono::{DateTime, TimeZone, Utc};
use rsmq_async::RsmqError;

use crate::rsmq::{invalid_format, rsmq_invalid_format};

verus! {

/// An instant in UTC as chrono gives it: whole seconds since the Unix epoch
/// and nanoseconds into that second.
#[derive(Clone, Copy, Debug, PartialEq, Eq)]
pub struct UtcInstant {
    /// Whole seconds since 1970-01-01T00:00:00Z.
    pub secs: i64,
    /// Nanoseconds into the second.
    pub nanos: u32,
}

/// The earliest whole second that a chrono `DateTime<Utc>` can hold
/// (-262143-01-01T00:00:00Z).
pub const UTC_MIN_TIMESTAMP: i64 = -8_334_601_228_800i64;

/// The latest whole second that a chrono `DateTime<Utc>` can hold
/// (+262142-12-31T23:59:59Z).
pub const UTC_MAX_TIMESTAMP: i64 = 8_210_266_876_799i64;

/// One second in nanoseconds.
pub const NANOS_PER_SEC: u32 = 1_000_000_000u32;

/// Whether chrono can hold the given whole second as a `DateTime<Utc>`.
pub open spec fn utc_representable(secs: int) -> bool {
    UTC_MIN_TIMESTAMP <= secs <= UTC_MAX_TIMESTAMP
}

/// An instant that chrono can hold, outside any leap second.
pub open spec fn instant_valid(t: UtcInstant) -> bool {
    utc_representable(t.secs as int) && t.nanos < NANOS_PER_SEC
}

/// The order of instants, as chrono compares two `DateTime<Utc>`.
pub open spec fn instant_le(a: UtcInstant, b: UtcInstant) -> bool {
    a.secs < b.secs || (a.secs == b.secs && a.nanos <= b.nanos)
}

/// The time from `earlier` to `later` in nanoseconds.
pub open spec fn nanos_between(later: UtcInstant, earlier: UtcInstant) -> int {
    (later.secs - earlier.secs) * NANOS_PER_SEC + later.nanos - earlier.nanos
}

/// The delay until `target` seen from `now`, in whole seconds: none when
/// `target` is not after `now`, else the whole seconds of the time between
/// them (what chrono's `num_seconds` counts of it: the fraction of a
/// second is dropped).
pub open spec fn delay_secs(target: UtcInstant, now: UtcInstant) -> int {
    if instant_le(target, now) {
        0
    } else {
        nanos_between(target, now) / (NANOS_PER_SEC as int)
    }
}

/// The instant of a whole second.
pub open spec fn whole_second(secs: int) -> UtcInstant {
    UtcInstant { secs: secs as i64, nanos: 0 }
}

/// `Utc.timestamp_opt(secs, 0)` (chrono): the instant of a whole second, or
/// none when chrono cannot hold it (`DateTime::from_timestamp` fails outside
/// the years -262143 to 262142).
#[verifier::external_body]
fn utc_timestamp(secs: i64) -> (t: Option<UtcInstant>)
    ensures
        t == (if utc_representable(secs as int) {
            Some(UtcInstant { secs, nanos: 0 })
        } else {
            None::<UtcInstant>
        }),
{
    match Utc.timestamp_opt(secs, 0).single() {
        Some(d) => Some(UtcInstant { secs: d.timestamp(), nanos: d.timestamp_subsec_nanos() }),
        None => None,
    }
}

/// The system clock, as std reads it; carried, never looked into.
#[verifier::external_type_specification]
#[verifier::external_body]
pub struct ExSystemTime(SystemTime);

/// `SystemTime::now()` (std): the system clock's reading. Nothing is stated
/// of it: which reading comes back is the clock's, and two calls may differ.
#[verifier::external_body]
fn system_now() -> SystemTime {
    SystemTime::now()
}

/// `SystemTime::duration_since(UNIX_EPOCH)` (std), taken apart into whole
/// seconds and `subsec_nanos`: none when the reading is before the epoch.
/// The nanoseconds are below one second, as `Duration::subsec_nanos`
/// documents. Whether a reading is before the epoch is left unsaid: that is
/// the clock's.
#[verifier::external_body]
fn since_unix_epoch(reading: &SystemTime) -> (elapsed: Option<(u64, u32)>)
    ensures
        elapsed matches Some((_, nanos)) ==> nanos < NANOS_PER_SEC,
{
    match reading.duration_since(UNIX_EPOCH) {
        Ok(d) => Some((d.as_secs(), d.subsec_nanos())),
        Err(_) => None,
    }
}

/// `DateTime::from_timestamp(secs, nanos)` (chrono), for nanoseconds below
/// one second: the instant, or none when chrono cannot hold that second
/// (outside the years -262143 to 262142).
#[verifier::external_body]
fn utc_from_timestamp(secs: i64, nanos: u32) -> (t: Option<UtcInstant>)
    requires
        nanos < NANOS_PER_SEC,
    ensures
        t == (if utc_representable(secs as int) {
            Some(UtcInstant { secs, nanos })
        } else {
            None::<UtcInstant>
        }),
{
    match DateTime::from_timestamp(secs, nanos) {
        Some(d) => Some(UtcInstant { secs: d.timestamp(), nanos: d.timestamp_subsec_nanos() }),
        None => None,
    }
}

/// The current instant, made from the system clock the way chrono's
/// `Utc::now` makes it (whole seconds since the epoch taken as an `i64`,
/// and the nanoseconds), or none where `Utc::now` panics: when the clock is
/// before the epoch, or past the last second chrono can hold.
fn utc_now() -> (now: Option<UtcInstant>)
    ensures
        now matches Some(t) ==> instant_valid(t),
{
    let reading = system_now();
    match since_unix_epoch(&reading) {
        Some((secs, nanos)) => utc_from_timestamp(secs as i64, nanos),
        None => None,
    }
}

/// The delay until `target` seen from `now`, in whole seconds.
pub fn delay_between(target: UtcInstant, now: UtcInstant) -> (secs: u64)
    requires
        instant_valid(target),
        instant_valid(now),
    ensures
        secs as int == delay_secs(target, now),
        // a target not after now gets no delay
        (target.secs < now.secs || (target.secs == now.secs && target.nanos <= now.nanos)) ==> secs
            == 0,
        // else the delay is the whole seconds of the time between them
        (target.secs > now.secs || (target.secs == now.secs && target.nanos > now.nanos)) ==> {
            &&& secs * 1_000_000_000 <= (target.secs - now.secs) * 1_000_000_000 + target.nanos
                - now.nanos
            &&& (target.secs - now.secs) * 1_000_000_000 + target.nanos - now.nanos < (secs + 1)
                * 1_000_000_000
        },
{
    proof {
        lemma_delay_secs_bounds(target, now);
    }
    if target.secs < now.secs || (target.secs == now.secs && target.nanos <= now.nanos) {
        0
    } else {
        proof {
            if target.secs == now.secs {
                // target.nanos > now.nanos: both lie in the same second
                assert(nanos_between(target, now) == target.nanos - now.nanos);
            } else {
                lemma_between_seconds(target, now);
            }
        }
        if target.secs == now.secs {
            0
        } else if target.nanos >= now.nanos {
            (target.secs - now.secs) as u64
        } else {
            (target.secs - now.secs - 1) as u64
        }
    }
}

proof fn lemma_delay_secs_bounds(target: UtcInstant, now: UtcInstant)
    requires
        instant_valid(target),
        instant_valid(now),
    ensures
        !instant_le(target, now) ==> {
            &&& delay_secs(target, now) * NANOS_PER_SEC <= nanos_between(target, now)
            &&& nanos_between(target, now) < (delay_secs(target, now) + 1) * NANOS_PER_SEC
        },
{
    if !instant_le(target, now) {
        let x = nanos_between(target, now);
        let s = NANOS_PER_SEC as int;
        assert(x > 0);
        assert((x / s) * s <= x < (x / s + 1) * s) by (nonlinear_arith)
            requires
                s > 0,
                x >= 0,
        ;
    }
}

proof fn lemma_between_seconds(later: UtcInstant, earlier: UtcInstant)
    requires
        instant_valid(later),
        instant_valid(earlier),
        later.secs > earlier.secs,
    ensures
        nanos_between(later, earlier) / (NANOS_PER_SEC as int) == (if later.nanos >= earlier.nanos {
            later.secs - earlier.secs
        } else {
            later.secs - earlier.secs - 1
        }),
{
    let s = NANOS_PER_SEC as int;
    let d = later.secs - earlier.secs;
    let n = later.nanos - earlier.nanos;
    assert(nanos_between(later, earlier) == d * s + n);
    if n >= 0 {
        assert((d * s + n) / s == d) by (nonlinear_arith)
            requires
                s > 0,
                0 <= n < s,
        ;
    } else {
        assert((d * s + n) / s == d - 1) by (nonlinear_arith)
            requires
                s > 0,
                -s < n < 0,
        ;
    }
}

/// The delay, in whole seconds, until the given Unix timestamp from the
/// instant that `now` stands for: none when the timestamp is not in the
/// future.
pub fn delay_from(timestamp: u64, now: UtcInstant) -> (secs: u64)
    requires
        utc_representable(timestamp as i64 as int),
        instant_valid(now),
    ensures
        secs as int == delay_secs(whole_second(timestamp as i64 as int), now),
        timestamp as i64 <= now.secs ==> secs == 0,
        timestamp as i64 > now.secs ==> now.secs + secs <= timestamp as i64 <= now.secs + secs + 1,
{
    proof {
        let t = timestamp as i64 as int;
        lemma_delay_until_whole_second(t, t, now);
    }
    let target = match utc_timestamp(timestamp as i64) {
        Some(t) => t,
        None => {
            assert(false);
            UtcInstant { secs: 0, nanos: 0 }
        },
    };
    delay_between(target, now)
}

/// The delay, in whole seconds, until the given Unix timestamp from now:
/// none when the timestamp is not in the future. With no usable clock
/// reading (the clock before the epoch, or past the last second chrono can
/// hold) there is no delay to give, and the result is `None`. Whatever the
/// clock says, a delay that comes back is the one from some valid instant.
pub fn delay_until(timestamp: u64) -> (secs: Option<u64>)
    requires
        utc_representable(timestamp as i64 as int),
    ensures
        secs matches Some(d) ==> exists|now: UtcInstant|
            instant_valid(now) && d as int == #[trigger] delay_secs(
                whole_second(timestamp as i64 as int),
                now,
            ),
{
    match utc_now() {
        Some(now) => {
            let d = delay_from(timestamp, now);
            assert(instant_valid(now) && d as int == delay_secs(
                whole_second(timestamp as i64 as int),
                now,
            ));
            Some(d)
        },
        None => None,
    }
}

/// The delay until a whole second that is not after the current one is
/// none; the delay until a later one is the whole seconds left, so that the
/// message becomes visible in the second before it is due at the earliest
/// and when it is due at the latest; and a later run time never gets a
/// shorter delay.
pub proof fn lemma_delay_until_whole_second(t: int, u: int, now: UtcInstant)
    requires
        utc_representable(t),
        utc_representable(u),
        instant_valid(now),
        t <= u,
    ensures
        t <= now.secs ==> delay_secs(whole_second(t), now) == 0,
        t > now.secs ==> now.secs + delay_secs(whole_second(t), now) <= t,
        t > now.secs ==> t <= now.secs + delay_secs(whole_second(t), now) + 1,
        delay_secs(whole_second(t), now) <= delay_secs(whole_second(u), now),
{
    if t > now.secs {
        lemma_between_seconds(whole_second(t), now);
    }
    if u > now.secs {
        lemma_between_seconds(whole_second(u), now);
    }
}

/// A payload ready to be sent, with the delay it is sent with.
pub struct OutgoingMessage {
    /// The encoded payload.
    pub payload: Vec<u8>,
    /// Seconds before the message becomes visible in its queue.
    pub delay_secs: u64,
    /// The clock reading that the delay was measured from.
    pub measured_from: UtcInstant,
}

/// Makes a queued task ready to be sent: it is delayed until the time it
/// is to run at, and its payload is what the codec gave; a codec error
/// becomes an `InvalidFormat` error. With no usable clock reading the
/// delay cannot be known, and the result is `None`.
pub fn prepare_send(run_at: u64, encoded: Result<Vec<u8>, String>) -> (r: Option<Result<OutgoingMessage, RsmqError>>)
    requires
        utc_representable(run_at as i64 as int),
    ensures
        r matches Some(res) ==> match encoded {
            Ok(bytes) => res matches Ok(m) && m.payload == bytes && exists|now: UtcInstant|
                instant_valid(now) && m.delay_secs as int == #[trigger] delay_secs(
                    whole_second(run_at as i64 as int),
                    now,
                ),
            Err(msg) => res == Err::<OutgoingMessage, RsmqError>(rsmq_invalid_format(msg@)),
        },
        // the delay is the one from the clock reading that the message reports
        r matches Some(Ok(m)) ==> {
            &&& instant_valid(m.measured_from)
            &&& m.delay_secs as int == delay_secs(whole_second(run_at as i64 as int), m.measured_from)
            &&& run_at as i64 <= m.measured_from.secs ==> m.delay_secs == 0
            &&& run_at as i64 > m.measured_from.secs ==> m.measured_from.secs + m.delay_secs
                <= run_at as i64 <= m.measured_from.secs + m.delay_secs + 1
        },
{
    let now = match utc_now() {
        Some(now) => now,
        None => return None,
    };
    let delay = delay_from(run_at, now);
    match encoded {
        Ok(payload) => Some(Ok(OutgoingMessage { payload, delay_secs: delay, measured_from: now })),
        Err(msg) => Some(Err(invalid_format(msg))),
    }
}

/// How one poll of a send under way came out.
pub enum SendProgress {
    /// Redis took the message.
    Sent,
    /// Redis refused the message, or could not be reached.
    Failed(RsmqError),
    /// The send is still under way.
    Waiting,
}

/// What the sink does after polling the send at the front of its queue.
pub enum FlushStep {
    /// Go on with the next send.
    Continue,
    /// Stop: the flush is over with this outcome.
    Ready(Result<(), RsmqError>),
    /// Stop: the send at the front is still under way; poll again later.
    Pending,
}

/// What a sink holds: the tasks waiting to be sent, oldest first, and the
/// sends under way, oldest first.
pub struct SinkView<I, P> {
    /// Tasks handed to the sink and not yet turned into sends.
    pub items: Seq<I>,
    /// Sends under way.
    pub pending_sends: Seq<P>,
}

impl<I, P> SinkView<I, P> {
    /// The sink after a task is handed to it.
    pub open spec fn push_item(self, item: I) -> Self {
        SinkView { items: self.items.push(item), ..self }
    }

    /// The sink after its oldest task is taken out.
    pub open spec fn take_item(self) -> Self {
        SinkView { items: self.items.drop_first(), ..self }
    }

    /// The sink after a send is added behind the others.
    pub open spec fn push_pending(self, send: P) -> Self {
        SinkView { pending_sends: self.pending_sends.push(send), ..self }
    }

    /// The sink after its oldest send is taken out to be polled.
    pub open spec fn take_pending(self) -> Self {
        SinkView { pending_sends: self.pending_sends.drop_first(), ..self }
    }

    /// The sink after its oldest send is taken out, polled with the given
    /// outcome, and settled.
    pub open spec fn poll_front(self, progress: SendProgress) -> Self {
        self.take_pending().settle(self.pending_sends[0], progress)
    }

    /// The sink after a send taken out to be polled is settled: one still
    /// under way goes back to the front, one that is over is dropped.
    pub open spec fn settle(self, send: P, progress: SendProgress) -> Self {
        match progress {
            SendProgress::Waiting => SinkView { pending_sends: seq![send] + self.pending_sends, ..self },
            _ => self,
        }
    }
}

/// How many sends a run of polls sees leave the sink: every poll that does
/// not find its send still under way.
pub open spec fn sends_left(polls: Seq<SendProgress>) -> nat
    decreases polls.len(),
{
    if polls.len() == 0 {
        0
    } else {
        sends_left(polls.drop_last()) + (if polls.last() is Waiting {
            0nat
        } else {
            1nat
        })
    }
}

/// The sink after a run of polls of its oldest send, one after another
/// (over one flush or several), each with the given outcome.
pub open spec fn poll_run<I, P>(v: SinkView<I, P>, polls: Seq<SendProgress>) -> SinkView<I, P>
    decreases polls.len(),
{
    if polls.len() == 0 {
        v
    } else {
        poll_run(v, polls.drop_last()).poll_front(polls.last())
    }
}

/// What the sink does after a send is polled.
pub open spec fn flush_step(progress: SendProgress) -> FlushStep {
    match progress {
        SendProgress::Sent => FlushStep::Continue,
        SendProgress::Failed(e) => FlushStep::Ready(Err(e)),
        SendProgress::Waiting => FlushStep::Pending,
    }
}

/// The queues behind the queue's sink: tasks handed to it (of type `I`)
/// wait there to be encoded, and sends to Redis (of type `P`) wait there
/// to complete, each in the order it came.
pub struct RsMqSink<I, P> {
    items: VecDeque<I>,
    pending_sends: VecDeque<P>,
}

impl<I, P> View for RsMqSink<I, P> {
    type V = SinkView<I, P>;

    closed spec fn view(&self) -> SinkView<I, P> {
        SinkView { items: self.items@, pending_sends: self.pending_sends@ }
    }
}

impl<I, P> RsMqSink<I, P> {
    /// An empty sink.
    pub fn new() -> (sink: Self)
        ensures
            sink@.items == Seq::<I>::empty(),
            sink@.pending_sends == Seq::<P>::empty(),
    {
        RsMqSink { items: VecDeque::new(), pending_sends: VecDeque::new() }
    }

    /// How many tasks wait to be sent.
    pub fn items_len(&self) -> (n: usize)
        ensures
            n == self@.items.len(),
    {
        self.items.len()
    }

    /// How many sends are under way.
    pub fn pending_sends_len(&self) -> (n: usize)
        ensures
            n == self@.pending_sends.len(),
    {
        self.pending_sends.len()
    }

    /// Hands a task to the sink, behind the ones already there.
    pub fn start_send(&mut self, item: I)
        ensures
            final(self)@ == old(self)@.push_item(item),
    {
        self.items.push_back(item);
    }

    /// Takes out the oldest task waiting to be sent.
    pub fn next_item(&mut self) -> (item: Option<I>)
        ensures
            match item {
                Some(x) => old(self)@.items.len() > 0 && x == old(self)@.items[0]
                    && final(self)@ == old(self)@.take_item(),
                None => old(self)@.items.len() == 0 && final(self)@ == old(self)@,
            },
    {
        let item = self.items.pop_front();
        proof {
            if item is Some {
                assert(self@.items =~= old(self)@.items.drop_first());
            }
        }
        item
    }

    /// Adds a send under way, behind the others.
    pub fn push_pending(&mut self, send: P)
        ensures
            final(self)@ == old(self)@.push_pending(send),
    {
        self.pending_sends.push_back(send);
    }

    /// Takes out the oldest send under way, to be polled.
    pub fn next_pending(&mut self) -> (send: Option<P>)
        ensures
            match send {
                Some(p) => old(self)@.pending_sends.len() > 0 && p == old(self)@.pending_sends[0]
                    && final(self)@ == old(self)@.take_pending(),
                None => old(self)@.pending_sends.len() == 0 && final(self)@ == old(self)@,
            },
    {
        let send = self.pending_sends.pop_front();
        proof {
            if send is Some {
                assert(self@.pending_sends =~= old(self)@.pending_sends.drop_first());
            }
        }
        send
    }

    /// Settles a send that was taken out and polled: a send that went
    /// through is dropped and the flush goes on; a send that failed is
    /// dropped and its error ends the flush; a send still under way goes
    /// back to the front, and the flush waits for it.
    pub fn settle(&mut self, send: P, progress: SendProgress) -> (step: FlushStep)
        ensures
            final(self)@ == old(self)@.settle(send, progress),
            step == flush_step(progress),
            final(self)@.items == old(self)@.items,
            progress is Waiting ==> step is Pending && final(self)@.pending_sends == seq![send] + old(
                self,
            )@.pending_sends,
            progress is Sent ==> step is Continue && final(self)@.pending_sends == old(
                self,
            )@.pending_sends,
            progress matches SendProgress::Failed(e) ==> step == FlushStep::Ready(Err(e))
                && final(self)@.pending_sends == old(self)@.pending_sends,
    {
        match progress {
            SendProgress::Sent => FlushStep::Continue,
            SendProgress::Failed(e) => FlushStep::Ready(Err(e)),
            SendProgress::Waiting => {
                self.pending_sends.push_front(send);
                FlushStep::Pending
            },
        }
    }
}

impl<I, P> Clone for RsMqSink<I, P> {
    /// An empty sink: the queued tasks and sends stay with the original.
    fn clone(&self) -> (sink: Self)
        ensures
            sink@.items == Seq::<I>::empty(),
            sink@.pending_sends == Seq::<P>::empty(),
    {
        RsMqSink::new()
    }
}

/// Tasks leave the sink in the order they were handed to it: handing over
/// a task and taking out the oldest one can be done in either order when
/// the sink already holds a task, and the oldest task stays the oldest.
pub proof fn lemma_items_first_in_first_out<I, P>(v: SinkView<I, P>, item: I)
    requires
        v.items.len() > 0,
    ensures
        v.push_item(item).items[0] == v.items[0],
        v.push_item(item).take_item() == v.take_item().push_item(item),
{
    assert(v.push_item(item).take_item().items =~= v.take_item().push_item(item).items);
}

/// Sends are polled in the order they were started, in the same way.
pub proof fn lemma_sends_first_in_first_out<I, P>(v: SinkView<I, P>, send: P)
    requires
        v.pending_sends.len() > 0,
    ensures
        v.push_pending(send).pending_sends[0] == v.pending_sends[0],
        v.push_pending(send).take_pending() == v.take_pending().push_pending(send),
{
    assert(v.push_pending(send).take_pending().pending_sends
        =~= v.take_pending().push_pending(send).pending_sends);
}

/// Polling a send that is still under way leaves the sink as it was; a
/// send that is over, whether it went through or failed, leaves the sink
/// for good, and the sends behind it keep their order.
pub proof fn lemma_settle_after_take<I, P>(v: SinkView<I, P>, progress: SendProgress)
    requires
        v.pending_sends.len() > 0,
    ensures
        progress is Waiting ==> v.take_pending().settle(v.pending_sends[0], progress) == v,
        !(progress is Waiting) ==> v.take_pending().settle(v.pending_sends[0], progress).pending_sends
            == v.pending_sends.drop_first(),
        v.take_pending().settle(v.pending_sends[0], progress).items == v.items,
{
    if progress is Waiting {
        assert(v.take_pending().settle(v.pending_sends[0], progress).pending_sends =~= v.pending_sends);
    }
}

/// Over any run of polls, sends leave the sink in the order they were
/// started, each once: after the run, the sends that have left are the
/// oldest ones, as many as polls found over, and the rest wait in their
/// order; each poll is of the oldest send still there, so a send is polled
/// only once every send before it has left. The tasks not yet encoded are
/// untouched.
pub proof fn lemma_sends_leave_in_order<I, P>(v: SinkView<I, P>, polls: Seq<SendProgress>)
    requires
        forall|i: int| 0 <= i < polls.len() ==> sends_left(#[trigger] polls.take(i)) < v.pending_sends.len(),
    ensures
        poll_run(v, polls).items == v.items,
        poll_run(v, polls).pending_sends == v.pending_sends.skip(sends_left(polls) as int),
        forall|i: int| 0 <= i < polls.len() ==> #[trigger] poll_run(v, polls.take(i)).pending_sends[0]
            == v.pending_sends[sends_left(polls.take(i)) as int],
    decreases polls.len(),
{
    if polls.len() == 0 {
        assert(v.pending_sends.skip(0) =~= v.pending_sends);
    } else {
        let q = polls.drop_last();
        let n = polls.len() - 1;
        assert forall|i: int| 0 <= i < q.len() implies sends_left(#[trigger] q.take(i)) < v.pending_sends.len() by {
            assert(q.take(i) =~= polls.take(i));
        }
        lemma_sends_leave_in_order(v, q);
        assert(polls.take(n) =~= q);
        let k = sends_left(q) as int;
        assert(k < v.pending_sends.len());
        let before = poll_run(v, q);
        assert(before.pending_sends[0] == v.pending_sends[k]);
        assert(before.take_pending().pending_sends =~= v.pending_sends.skip(k + 1));
        if polls.last() is Waiting {
            assert(before.poll_front(polls.last()).pending_sends =~= v.pending_sends.skip(k));
        }
        assert forall|i: int| 0 <= i < polls.len() implies #[trigger] poll_run(v, polls.take(i)).pending_sends[0]
            == v.pending_sends[sends_left(polls.take(i)) as int] by {
            if i < n {
                assert(polls.take(i) =~= q.take(i));
            }
        }
    }
}

} // verus!
