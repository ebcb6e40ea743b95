//! The asynchronous edge and value streams.
//!
//! A [`PinStream`] turns readiness notifications for a pin's `value`
//! attribute into edge events, suppressing exactly the first notification
//! per stream lifetime: opening the attribute and registering interest
//! itself produces one immediate, spurious notification, which must not
//! surface as a fake edge.  A [`PinValueStream`] re-reads the pin value
//! after each surfaced edge and yields that value instead.
//!
//! Both are driven from suspension points: an outside scheduler observes
//! whether the underlying descriptor signalled readiness (through the
//! registration the owned [`AsyncPinPoller`] offers) and hands that
//! observation to [`PinStream::poll`], re-arming interest whenever the
//! returned step asks for it.  The streams never end on their own;
//! dropping them releases the owned descriptor.

use vstd::prelude::*;

use crate::error::Error;
use crate::evented::AsyncPinPoller;
use crate::pin::Pin;

verus! {

/// What one suspension-point poll of an edge stream decided.
#[derive(Clone, Copy, Debug, PartialEq, Eq, Structural)]
pub enum StreamStep {
    /// Readiness was not signalled: suspend and wait to be woken.
    Pending,
    /// The first, spurious notification was discarded; no item surfaces,
    /// but interest must be re-armed.
    SuppressedFirst,
    /// An edge event surfaces to the consumer; interest must be re-armed.
    EdgeReady,
}

/// The step an edge stream takes on one readiness observation, given
/// whether the spurious first notification was already suppressed.
pub open spec fn step_of(skipped: bool, ready: bool) -> StreamStep {
    if !ready {
        StreamStep::Pending
    } else if skipped {
        StreamStep::EdgeReady
    } else {
        StreamStep::SuppressedFirst
    }
}

/// The suppression flag after one readiness observation.
pub open spec fn skipped_after(skipped: bool, ready: bool) -> bool {
    skipped || ready
}

/// Whether a step re-arms interest: exactly the steps that consumed a
/// readiness notification do, once each.
pub open spec fn spec_needs_rearm(step: StreamStep) -> bool {
    step != StreamStep::Pending
}

/// Whether a step surfaces an item to the consumer.
pub open spec fn spec_surfaces_item(step: StreamStep) -> bool {
    step == StreamStep::EdgeReady
}

/// Whether a step re-arms interest.
pub fn needs_rearm(step: &StreamStep) -> (r: bool)
    ensures
        r == spec_needs_rearm(*step),
{
    match step {
        StreamStep::Pending => false,
        _ => true,
    }
}

/// Whether a step surfaces an item to the consumer.
pub fn surfaces_item(step: &StreamStep) -> (r: bool)
    ensures
        r == spec_surfaces_item(*step),
{
    match step {
        StreamStep::EdgeReady => true,
        _ => false,
    }
}

/// The asynchronous edge stream of one pin: the owned descriptor and the
/// flag that records whether the spurious first notification was already
/// discarded.
pub struct PinStream {
    poller: AsyncPinPoller,
    skipped_first_event: bool,
}

impl PinStream {
    /// Whether the spurious first notification was already discarded.
    pub closed spec fn skipped(&self) -> bool {
        self.skipped_first_event
    }

    /// The owned descriptor wrapper.
    pub closed spec fn source(&self) -> AsyncPinPoller {
        self.poller
    }

    /// A stream is as well-formed as its descriptor.
    pub open spec fn wf(&self) -> bool {
        self.source().wf()
    }

    /// Wraps an already opened adapter into a fresh stream, with the
    /// first notification still to be suppressed.
    pub fn from_poller(poller: AsyncPinPoller) -> (s: PinStream)
        ensures
            s.source() == poller,
            !s.skipped(),
    {
        PinStream { poller, skipped_first_event: false }
    }

    /// Opens a fresh edge stream on the pin's `value` attribute file.
    /// Configure the edge setting of the pin beforehand, or no
    /// notification will ever arrive.
    pub fn init(pin: Pin) -> (r: Result<PinStream, Error>)
        ensures
            r matches Ok(s) ==> s.wf() && !s.skipped(),
            r matches Err(e) ==> e is Io,
    {
        match AsyncPinPoller::new(pin.get_pin_num()) {
            Ok(poller) => Ok(PinStream::from_poller(poller)),
            Err(e) => Err(e),
        }
    }

    /// The owned adapter, for registration with an outside multiplexer.
    pub fn poller(&self) -> (p: &AsyncPinPoller)
        ensures
            *p == self.source(),
    {
        &self.poller
    }

    /// One suspension-point poll, given whether readiness was signalled
    /// since the last observation.
    ///
    /// Without readiness the stream stays pending.  The first
    /// notification of the stream's lifetime is discarded and only flips
    /// the suppression flag; each one after that surfaces exactly one
    /// edge event.  Whenever a notification was consumed (suppressed or
    /// surfaced), the caller must re-arm interest, exactly once, before
    /// the next observation.
    pub fn poll(&mut self, ready: bool) -> (step: StreamStep)
        ensures
            step == step_of(old(self).skipped(), ready),
            final(self).skipped() == skipped_after(old(self).skipped(), ready),
            final(self).source() == old(self).source(),
    {
        if ready {
            if self.skipped_first_event {
                StreamStep::EdgeReady
            } else {
                self.skipped_first_event = true;
                StreamStep::SuppressedFirst
            }
        } else {
            StreamStep::Pending
        }
    }
}

/// The steps a fresh-or-running edge stream takes over a whole run of
/// readiness observations.
pub open spec fn run_steps(skipped: bool, readies: Seq<bool>) -> Seq<StreamStep>
    decreases readies.len(),
{
    if readies.len() == 0 {
        Seq::empty()
    } else {
        seq![step_of(skipped, readies[0])] + run_steps(
            skipped_after(skipped, readies[0]),
            readies.drop_first(),
        )
    }
}

/// How many observations of a run signalled readiness.
pub open spec fn count_ready(readies: Seq<bool>) -> int
    decreases readies.len(),
{
    if readies.len() == 0 {
        0
    } else {
        (if readies[0] {
            1int
        } else {
            0int
        }) + count_ready(readies.drop_first())
    }
}

/// How many steps of a run surfaced an edge event.
pub open spec fn count_surfaced(steps: Seq<StreamStep>) -> int
    decreases steps.len(),
{
    if steps.len() == 0 {
        0
    } else {
        (if spec_surfaces_item(steps[0]) {
            1int
        } else {
            0int
        }) + count_surfaced(steps.drop_first())
    }
}

/// How many steps of a run discarded a notification as spurious.
pub open spec fn count_suppressed(steps: Seq<StreamStep>) -> int
    decreases steps.len(),
{
    if steps.len() == 0 {
        0
    } else {
        (if steps[0] == StreamStep::SuppressedFirst {
            1int
        } else {
            0int
        }) + count_suppressed(steps.drop_first())
    }
}

/// How many steps of a run asked for interest to be re-armed.
pub open spec fn count_rearmed(steps: Seq<StreamStep>) -> int
    decreases steps.len(),
{
    if steps.len() == 0 {
        0
    } else {
        (if spec_needs_rearm(steps[0]) {
            1int
        } else {
            0int
        }) + count_rearmed(steps.drop_first())
    }
}

/// A run takes exactly one step per readiness observation.
proof fn lemma_run_steps_len(skipped: bool, readies: Seq<bool>)
    ensures
        run_steps(skipped, readies).len() == readies.len(),
    decreases readies.len(),
{
    if readies.len() > 0 {
        lemma_run_steps_len(skipped_after(skipped, readies[0]), readies.drop_first());
    }
}

/// In the steady state (first notification already suppressed), every
/// readiness notification surfaces exactly one edge event, none is
/// discarded, and interest is re-armed once per notification.
proof fn lemma_steady_stream(readies: Seq<bool>)
    ensures
        count_surfaced(run_steps(true, readies)) == count_ready(readies),
        count_suppressed(run_steps(true, readies)) == 0,
        count_rearmed(run_steps(true, readies)) == count_ready(readies),
    decreases readies.len(),
{
    if readies.len() > 0 {
        lemma_steady_stream(readies.drop_first());
        assert(run_steps(true, readies).drop_first() =~= run_steps(true, readies.drop_first()));
    }
}

/// Over any whole run of a fresh edge stream: the first readiness
/// notification is suppressed and never surfaces; every notification
/// after it surfaces exactly one edge event, with none dropped and none
/// duplicated; and interest is re-armed exactly once per notification,
/// whether it was suppressed or surfaced.
pub proof fn lemma_first_suppressed_rest_surfaced(readies: Seq<bool>)
    ensures
        run_steps(false, readies).len() == readies.len(),
        count_surfaced(run_steps(false, readies)) == if count_ready(readies) == 0 {
            0int
        } else {
            count_ready(readies) - 1
        },
        count_suppressed(run_steps(false, readies)) == if count_ready(readies) == 0 {
            0int
        } else {
            1int
        },
        count_rearmed(run_steps(false, readies)) == count_ready(readies),
    decreases readies.len(),
{
    lemma_run_steps_len(false, readies);
    if readies.len() > 0 {
        let rest = readies.drop_first();
        if readies[0] {
            lemma_steady_stream(rest);
            lemma_count_ready_nonneg(rest);
            assert(run_steps(false, readies).drop_first() =~= run_steps(true, rest));
        } else {
            lemma_first_suppressed_rest_surfaced(rest);
            assert(run_steps(false, readies).drop_first() =~= run_steps(false, rest));
        }
    }
}

proof fn lemma_count_ready_nonneg(readies: Seq<bool>)
    ensures
        count_ready(readies) >= 0,
    decreases readies.len(),
{
    if readies.len() > 0 {
        lemma_count_ready_nonneg(readies.drop_first());
    }
}

/// The asynchronous value stream of one pin: the edge stream, with the
/// pin value re-read after each surfaced edge.
pub struct PinValueStream {
    stream: PinStream,
}

impl PinValueStream {
    /// The wrapped edge stream.
    pub closed spec fn edges(&self) -> PinStream {
        self.stream
    }

    /// Whether the spurious first notification was already discarded.
    pub open spec fn skipped(&self) -> bool {
        self.edges().skipped()
    }

    /// A value stream is as well-formed as its edge stream.
    pub open spec fn wf(&self) -> bool {
        self.edges().wf()
    }

    /// Wraps an edge stream.
    pub fn from_stream(stream: PinStream) -> (s: PinValueStream)
        ensures
            s.edges() == stream,
    {
        PinValueStream { stream }
    }

    /// Opens a fresh value stream on the pin's `value` attribute file.
    /// Configure `Edge::BothEdges` beforehand to see every change.
    pub fn init(pin: Pin) -> (r: Result<PinValueStream, Error>)
        ensures
            r matches Ok(s) ==> s.wf() && !s.skipped(),
            r matches Err(e) ==> e is Io,
    {
        match PinStream::init(pin) {
            Ok(stream) => Ok(PinValueStream::from_stream(stream)),
            Err(e) => Err(e),
        }
    }

    /// The owned adapter, for registration with an outside multiplexer.
    pub fn poller(&self) -> (p: &AsyncPinPoller)
        ensures
            *p == self.edges().source(),
    {
        self.stream.poller()
    }

    /// Re-reads the pin value through the owned descriptor.
    pub fn get_value(&self) -> (r: Result<u8, Error>)
        ensures
            r matches Ok(v) ==> v == 0 || v == 1,
            r matches Err(e) ==> e is Io || e is Unexpected,
    {
        self.stream.poller().read_value()
    }

    /// One suspension-point poll, given whether readiness was signalled
    /// since the last observation.
    ///
    /// Exactly when the underlying edge stream surfaces an edge event,
    /// the pin value is re-read — after the edge was observed, not before
    /// — and surfaced in its place; `Ok(None)` means no item yet.  Two
    /// consecutive items may carry the same value when the pin toggled
    /// back before the re-read; nothing is filtered.  The caller re-arms
    /// interest per [`PinStream::poll`]'s contract.
    pub fn poll(&mut self, ready: bool) -> (r: Result<Option<u8>, Error>)
        ensures
            final(self).skipped() == skipped_after(old(self).skipped(), ready),
            final(self).edges().source() == old(self).edges().source(),
            !spec_surfaces_item(step_of(old(self).skipped(), ready)) ==> r == Ok::<
                Option<u8>,
                Error,
            >(None),
            r matches Ok(Some(v)) ==> spec_surfaces_item(step_of(old(self).skipped(), ready)) && (
            v == 0 || v == 1),
            r matches Err(e) ==> spec_surfaces_item(step_of(old(self).skipped(), ready)) && (
            e is Io || e is Unexpected),
            spec_surfaces_item(step_of(old(self).skipped(), ready)) ==> !(r matches Ok(x)
                && x is None),
    {
        let step = self.stream.poll(ready);
        match step {
            StreamStep::EdgeReady => {
                match self.get_value() {
                    Ok(v) => Ok(Some(v)),
                    Err(e) => Err(e),
                }
            }
            _ => Ok(None),
        }
    }
}

} // verus!
