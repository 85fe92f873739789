use vstd::prelude::*;
use crate::error::SessionError;
use crate::request::StreamingRecognizeResponse;

verus! {

/// Where the pump stands in the duplex exchange.
#[derive(Debug, Clone, Copy, PartialEq, Eq, Structural)]
pub enum PumpPhase {
    /// Waiting for the transport to open the duplex call.
    Opening,
    /// Reading the inbound stream item by item.
    Reading,
    /// The exchange is over; nothing more is read.
    Finished,
}

/// What the driver of the pump must do next.
#[derive(Debug, PartialEq, Eq)]
pub enum PumpAction {
    /// Read the next item of the inbound stream.
    AwaitNext,
    /// Send this result to the consumer, then read the next item. A consumer
    /// that has gone away is tolerated: the send failure is ignored.
    Forward(StreamingRecognizeResponse),
    /// No consumer is installed: drop the result, then read the next item.
    Discard,
    /// Stop, and return this outcome to whoever awaits the pump.
    Finish(Result<(), SessionError>),
}

/// The decisions of one duplex exchange. The driver opens the call, feeds
/// each read outcome in, and performs the returned action.
pub struct SessionPump {
    phase: PumpPhase,
    forwarded: Ghost<Seq<StreamingRecognizeResponse>>,
}

/// The mathematical state of a pump: its phase and the results handed out
/// for forwarding so far.
pub struct PumpView {
    pub phase: PumpPhase,
    pub forwarded: Seq<StreamingRecognizeResponse>,
}

impl PumpView {
    pub open spec fn initial() -> PumpView {
        PumpView { phase: PumpPhase::Opening, forwarded: Seq::empty() }
    }

    /// State and action after the transport answered the open request with
    /// `status` (a status code on failure).
    pub open spec fn open_step(self, status: Result<(), i32>) -> (PumpView, PumpAction) {
        match status {
            Ok(()) => (PumpView { phase: PumpPhase::Reading, ..self }, PumpAction::AwaitNext),
            Err(code) => (
                PumpView { phase: PumpPhase::Finished, ..self },
                PumpAction::Finish(Err(SessionError::StreamError { code })),
            ),
        }
    }

    /// State and action after one read of the inbound stream (an item, the
    /// end of the stream, or a failure with a status code), where
    /// `egress_installed` tells whether a consumer is installed at that read.
    pub open spec fn read_step(
        self,
        item: Result<Option<StreamingRecognizeResponse>, i32>,
        egress_installed: bool,
    ) -> (PumpView, PumpAction) {
        match item {
            Ok(Some(resp)) => if egress_installed {
                (PumpView { forwarded: self.forwarded.push(resp), ..self }, PumpAction::Forward(resp))
            } else {
                (self, PumpAction::Discard)
            },
            Ok(None) => (PumpView { phase: PumpPhase::Finished, ..self }, PumpAction::Finish(Ok(()))),
            Err(code) => (
                PumpView { phase: PumpPhase::Finished, ..self },
                PumpAction::Finish(Err(SessionError::StreamError { code })),
            ),
        }
    }

    /// The state after the inbound stream delivered `items`, in order, with
    /// a consumer installed throughout or absent throughout.
    pub open spec fn deliver(self, items: Seq<StreamingRecognizeResponse>, egress_installed: bool) -> PumpView
        decreases items.len(),
    {
        if items.len() == 0 {
            self
        } else {
            self.deliver(items.drop_last(), egress_installed).read_step(Ok(Some(items.last())), egress_installed).0
        }
    }
}

/// Delivering items while reading keeps the pump reading, and forwards
/// exactly those items, in arrival order, when a consumer is installed and
/// none of them otherwise.
pub proof fn lemma_deliver(p: PumpView, items: Seq<StreamingRecognizeResponse>, egress_installed: bool)
    requires
        p.phase == PumpPhase::Reading,
    ensures
        p.deliver(items, egress_installed).phase == PumpPhase::Reading,
        p.deliver(items, egress_installed).forwarded == if egress_installed {
            p.forwarded + items
        } else {
            p.forwarded
        },
    decreases items.len(),
{
    if items.len() > 0 {
        lemma_deliver(p, items.drop_last(), egress_installed);
        if egress_installed {
            assert(items.drop_last().push(items.last()) =~= items);
            assert((p.forwarded + items.drop_last()).push(items.last()) =~= p.forwarded + items);
        }
    }
}

/// A clean session: after the call opens and the transport emits `items`
/// and then ends its stream, the consumer has been handed exactly `items`,
/// in order, and the pump finishes successfully.
pub proof fn lemma_clean_session(items: Seq<StreamingRecognizeResponse>)
    ensures
        ({
            let opened = PumpView::initial().open_step(Ok(())).0;
            let (last, action) = opened.deliver(items, true).read_step(Ok(None), true);
            &&& last.phase == PumpPhase::Finished
            &&& last.forwarded == items
            &&& action == PumpAction::Finish(Ok(()))
        }),
{
    let opened = PumpView::initial().open_step(Ok(())).0;
    lemma_deliver(opened, items, true);
    assert(Seq::<StreamingRecognizeResponse>::empty() + items =~= items);
}

/// A read failure after some items were forwarded ends the pump with a
/// stream error, and the items forwarded before it stay exactly those items.
pub proof fn lemma_failure_keeps_forwarded(items: Seq<StreamingRecognizeResponse>, code: i32)
    ensures
        ({
            let opened = PumpView::initial().open_step(Ok(())).0;
            let (last, action) = opened.deliver(items, true).read_step(Err(code), true);
            &&& last.phase == PumpPhase::Finished
            &&& last.forwarded == items
            &&& action == PumpAction::Finish(Err(SessionError::StreamError { code }))
        }),
{
    let opened = PumpView::initial().open_step(Ok(())).0;
    lemma_deliver(opened, items, true);
    assert(Seq::<StreamingRecognizeResponse>::empty() + items =~= items);
}

/// A consumer installed after the pump has read `before` loses exactly
/// those results: every result read from then on, `after`, is forwarded in
/// order, and the exchange still ends without failing.
pub proof fn lemma_late_consumer(before: Seq<StreamingRecognizeResponse>, after: Seq<StreamingRecognizeResponse>)
    ensures
        ({
            let opened = PumpView::initial().open_step(Ok(())).0;
            let reading = opened.deliver(before, false).deliver(after, true);
            let (last, action) = reading.read_step(Ok(None), true);
            &&& last.forwarded == after
            &&& action == PumpAction::Finish(Ok(()))
        }),
{
    let opened = PumpView::initial().open_step(Ok(())).0;
    lemma_deliver(opened, before, false);
    lemma_deliver(opened.deliver(before, false), after, true);
    assert(Seq::<StreamingRecognizeResponse>::empty() + after =~= after);
}

/// A failure to open the duplex call ends the exchange at once with a
/// stream error, before anything is read or forwarded.
pub proof fn lemma_open_failure(code: i32)
    ensures
        ({
            let (last, action) = PumpView::initial().open_step(Err(code));
            &&& last.phase == PumpPhase::Finished
            &&& last.forwarded.len() == 0
            &&& action == PumpAction::Finish(Err(SessionError::StreamError { code }))
        }),
{
}

impl View for SessionPump {
    type V = PumpView;

    closed spec fn view(&self) -> PumpView {
        PumpView { phase: self.phase, forwarded: self.forwarded@ }
    }
}

impl SessionPump {
    /// A pump that has not opened the call yet.
    pub fn new() -> (r: SessionPump)
        ensures
            r@ == PumpView::initial(),
    {
        SessionPump { phase: PumpPhase::Opening, forwarded: Ghost(Seq::empty()) }
    }

    pub fn phase(&self) -> (r: PumpPhase)
        ensures
            r == self@.phase,
    {
        self.phase
    }

    /// Takes the transport's answer to the open request. A failure ends the
    /// exchange with a stream error; it is not retried.
    pub fn on_open(&mut self, status: Result<(), i32>) -> (r: PumpAction)
        requires
            old(self)@.phase == PumpPhase::Opening,
        ensures
            (final(self)@, r) == old(self)@.open_step(status),
    {
        match status {
            Ok(()) => {
                self.phase = PumpPhase::Reading;
                PumpAction::AwaitNext
            },
            Err(code) => {
                self.phase = PumpPhase::Finished;
                PumpAction::Finish(Err(SessionError::StreamError { code }))
            },
        }
    }

    /// Takes the outcome of one read of the inbound stream and whether a
    /// consumer is installed now. Items are forwarded in the order they
    /// arrive; the end of the stream finishes the exchange cleanly, a
    /// failure finishes it with a stream error.
    pub fn on_read(&mut self, item: Result<Option<StreamingRecognizeResponse>, i32>, egress_installed: bool) -> (r:
        PumpAction)
        requires
            old(self)@.phase == PumpPhase::Reading,
        ensures
            (final(self)@, r) == old(self)@.read_step(item, egress_installed),
    {
        match item {
            Ok(Some(resp)) => {
                if egress_installed {
                    proof {
                        self.forwarded@ = self.forwarded@.push(resp);
                    }
                    PumpAction::Forward(resp)
                } else {
                    PumpAction::Discard
                }
            },
            Ok(None) => {
                self.phase = PumpPhase::Finished;
                PumpAction::Finish(Ok(()))
            },
            Err(code) => {
                self.phase = PumpPhase::Finished;
                PumpAction::Finish(Err(SessionError::StreamError { code }))
            },
        }
    }
}

} // verus!
