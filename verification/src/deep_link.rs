//! The deep-link listener: the process-wide hook that receives OS-delivered
//! URI activations and hands each one, exactly once, to the application's
//! event consumer.
//!
//! The hook is registered once during startup composition, before the UI is
//! ready to consume events, so an activation arriving during cold start is
//! buffered until a consumer attaches; attaching drains the buffer in
//! arrival order. Registration persists until process exit: the lifecycle
//! runs `Uninitialized -> Registered -> Listening` and never back. Distinct
//! activations are never reordered or coalesced; the buffer is bounded by a
//! small capacity, a policy choice, and an activation arriving on a full
//! buffer is reported as dropped rather than silently lost.

use vstd::prelude::*;

verus! {

/// How an activation reached the process: at cold start, or while the
/// process was already running.
#[derive(Clone, Copy, PartialEq, Eq, Structural, Debug)]
pub enum ActivationKind {
    ColdStart,
    AlreadyRunning,
}

/// One OS-delivered URI activation of the registered scheme.
#[derive(Clone, Debug)]
pub struct DeepLinkEvent {
    pub uri: String,
    pub kind: ActivationKind,
}

/// The lifecycle of the process-wide hook. There is no unregistered
/// transition: registration lasts until process exit.
#[derive(Clone, Copy, PartialEq, Eq, Structural, Debug)]
pub enum ListenerPhase {
    Uninitialized,
    Registered,
    Listening,
}

/// How many activations the hub buffers while no consumer is attached.
pub const DEEP_LINK_BUFFER_CAPACITY: usize = 16;

/// What became of one delivered activation: handed to the attached consumer,
/// queued for the first consumer to attach, or dropped on a full buffer.
#[derive(Clone, Debug)]
pub enum Delivery {
    Dispatched(DeepLinkEvent),
    Queued,
    Dropped,
}

/// The process-wide deep-link listener state: its lifecycle phase and the
/// activations buffered while no consumer is attached.
pub struct DeepLinkHub {
    phase: ListenerPhase,
    pending: Vec<DeepLinkEvent>,
}

/// How many times the event `e` occurs in `s`.
pub open spec fn occurrences(s: Seq<DeepLinkEvent>, e: DeepLinkEvent) -> nat
    decreases s.len(),
{
    if s.len() == 0 {
        0
    } else {
        occurrences(s.drop_last(), e) + (if s.last() == e {
            1nat
        } else {
            0nat
        })
    }
}

impl DeepLinkHub {
    /// The lifecycle phase.
    pub closed spec fn phase(&self) -> ListenerPhase {
        self.phase
    }

    /// The buffered activations, in arrival order.
    pub closed spec fn pending(&self) -> Seq<DeepLinkEvent> {
        self.pending@
    }

    /// The buffer respects its bound, and only the phase in which no
    /// consumer is attached ever holds buffered activations.
    pub closed spec fn wf(&self) -> bool {
        &&& self.pending@.len() <= DEEP_LINK_BUFFER_CAPACITY
        &&& self.phase != ListenerPhase::Registered ==> self.pending@.len() == 0
    }

    /// The lifecycle phase, for the host to consult before it forwards an
    /// activation or attaches the consumer.
    pub fn current_phase(&self) -> (p: ListenerPhase)
        ensures
            p == self.phase(),
    {
        self.phase
    }

    /// A hub before startup composition: nothing registered, nothing buffered.
    pub fn new() -> (r: DeepLinkHub)
        ensures
            r.wf(),
            r.phase() == ListenerPhase::Uninitialized,
            r.pending() == Seq::<DeepLinkEvent>::empty(),
    {
        let r = DeepLinkHub { phase: ListenerPhase::Uninitialized, pending: Vec::new() };
        proof {
            assert(r.pending() =~= Seq::<DeepLinkEvent>::empty());
        }
        r
    }

    /// Installs the OS hook for the custom URI scheme. Run exactly once
    /// during startup composition; afterwards the hub can receive
    /// activations, buffering them until a consumer attaches.
    pub fn register_scheme(&mut self)
        requires
            old(self).wf(),
            old(self).phase() == ListenerPhase::Uninitialized,
        ensures
            final (self).wf(),
            final (self).phase() == ListenerPhase::Registered,
            final (self).pending() == old(self).pending(),
    {
        self.phase = ListenerPhase::Registered;
    }

    /// Attaches the application's event consumer and hands it every
    /// activation buffered so far, in arrival order; the buffer is empty
    /// afterwards and later activations are dispatched directly.
    pub fn attach_consumer(&mut self) -> (buffered: Vec<DeepLinkEvent>)
        requires
            old(self).wf(),
            old(self).phase() == ListenerPhase::Registered,
        ensures
            final (self).wf(),
            final (self).phase() == ListenerPhase::Listening,
            buffered@ == old(self).pending(),
            final (self).pending().len() == 0,
    {
        self.phase = ListenerPhase::Listening;
        let mut buffered: Vec<DeepLinkEvent> = Vec::new();
        core::mem::swap(&mut buffered, &mut self.pending);
        buffered
    }

    /// Receives one OS-delivered activation. With a consumer attached the
    /// event is handed straight out for dispatch; before that it is queued
    /// behind the activations already buffered — never reordered, never
    /// coalesced — unless the buffer is full, in which case the drop is
    /// reported.
    pub fn deliver(&mut self, e: DeepLinkEvent) -> (d: Delivery)
        requires
            old(self).wf(),
            old(self).phase() != ListenerPhase::Uninitialized,
        ensures
            final (self).wf(),
            final (self).phase() == old(self).phase(),
            old(self).phase() == ListenerPhase::Listening ==> {
                &&& d == Delivery::Dispatched(e)
                &&& final (self).pending() == old(self).pending()
            },
            old(self).phase() == ListenerPhase::Registered && old(self).pending().len()
                < DEEP_LINK_BUFFER_CAPACITY ==> {
                &&& d is Queued
                &&& final (self).pending() == old(self).pending().push(e)
            },
            old(self).phase() == ListenerPhase::Registered && old(self).pending().len()
                >= DEEP_LINK_BUFFER_CAPACITY ==> {
                &&& d is Dropped
                &&& final (self).pending() == old(self).pending()
            },
    {
        if self.phase == ListenerPhase::Listening {
            Delivery::Dispatched(e)
        } else if self.pending.len() < DEEP_LINK_BUFFER_CAPACITY {
            self.pending.push(e);
            Delivery::Queued
        } else {
            Delivery::Dropped
        }
    }
}

/// A buffered activation is not lost: an event queued while no consumer was
/// attached — the buffer goes from `pending` to `pending.push(e)` — gains
/// exactly one occurrence, at the end of the buffer, and every other
/// activation keeps its occurrences and its position. Since attaching a
/// consumer hands out exactly the buffer, the event is delivered exactly
/// once to the first consumer that attaches.
pub proof fn lemma_buffered_event_delivered_once(pending: Seq<DeepLinkEvent>, e: DeepLinkEvent)
    ensures
        occurrences(pending.push(e), e) == occurrences(pending, e) + 1,
        forall|x: DeepLinkEvent|
            x != e ==> #[trigger] occurrences(pending.push(e), x) == occurrences(pending, x),
        pending.push(e)[pending.len() as int] == e,
        forall|i: int| 0 <= i < pending.len() ==> pending.push(e)[i] == pending[i],
{
    assert(pending.push(e).drop_last() =~= pending);
    assert(pending.push(e).last() == e);
    assert forall|x: DeepLinkEvent| x != e implies #[trigger] occurrences(pending.push(e), x)
        == occurrences(pending, x) by {
        assert(pending.push(e).drop_last() == pending);
    }
}

} // verus!
