use vstd::prelude::*;

verus! {

/// Why a subscription's connection ended.
#[derive(PartialEq, Eq, Structural, Clone, Copy, Debug)]
pub enum CloseReason {
    /// The close was asked for, locally or cleanly.
    Normal,
    /// The transport failed or the peer dropped the connection.
    Abnormal,
}

/// The slot that holds the live handle of a subscriber's connection.
///
/// It holds at most one handle. `stop` takes the handle out, so that the
/// one who took it is the only one to close it; a stop that comes before
/// any handle is installed is remembered, and the handle installed next is
/// handed straight back to be closed.
pub struct ConnectionRegistry<H> {
    slot: Option<H>,
    stop_requested: bool,
}

impl<H> ConnectionRegistry<H> {
    /// The handle that is held, if any.
    pub closed spec fn handle(&self) -> Option<H> {
        self.slot
    }

    /// A stop was asked for since the last `begin`.
    pub closed spec fn stopping(&self) -> bool {
        self.stop_requested
    }

    /// An empty registry.
    pub fn new() -> (r: ConnectionRegistry<H>)
        ensures
            r.handle() is None,
            !r.stopping(),
    {
        ConnectionRegistry { slot: None, stop_requested: false }
    }

    /// A subscription starts: stops asked for earlier no longer apply.
    pub fn begin(&mut self)
        ensures
            final(self).handle() == old(self).handle(),
            !final(self).stopping(),
    {
        self.stop_requested = false;
    }

    /// Installs the handle of a connection just made. Where a stop has been
    /// asked for, the handle is not kept but handed back, to be closed.
    pub fn install(&mut self, h: H) -> (r: Option<H>)
        ensures
            final(self).stopping() == old(self).stopping(),
            old(self).stopping() ==> r == Some(h) && final(self).handle() == old(self).handle(),
            !old(self).stopping() ==> r is None && final(self).handle() == Some(h),
    {
        if self.stop_requested {
            Some(h)
        } else {
            self.slot = Some(h);
            None
        }
    }

    /// Asks for the subscription to stop: the held handle, if any, is taken
    /// out and returned, to be closed normally by the caller.
    pub fn stop(&mut self) -> (r: Option<H>)
        ensures
            r == old(self).handle(),
            final(self).handle() is None,
            final(self).stopping(),
    {
        self.stop_requested = true;
        self.slot.take()
    }

    /// The connection has ended: no handle is held any more.
    pub fn clear(&mut self)
        ensures
            final(self).handle() is None,
            final(self).stopping() == old(self).stopping(),
    {
        self.slot = None;
    }

    /// A handle is held.
    pub fn is_running(&self) -> (r: bool)
        ensures
            r == self.handle() is Some,
    {
        self.slot.is_some()
    }
}

/// A callback that a subscription delivers to its handler.
pub enum Callback {
    Open,
    Slate,
    Close(CloseReason),
}

/// An event of a subscription's lifetime, as the connection reports it.
#[derive(PartialEq, Eq, Structural)]
pub enum LifetimeEvent {
    /// The connection opened.
    Opened,
    /// A slate arrived, whose signature did or did not verify.
    SlateArrived(bool),
    /// The connection ended, cleanly or not.
    Ended(bool),
}

/// What a gate has let through so far.
pub struct GateState {
    pub opened: bool,
    pub closed: bool,
}

/// One event through a callback gate: the state after it, and the callback that
/// it delivers, if any.
pub open spec fn gate_step(s: GateState, e: LifetimeEvent) -> (GateState, Option<Callback>) {
    match e {
        LifetimeEvent::Opened => if s.opened || s.closed {
            (s, None)
        } else {
            (GateState { opened: true, closed: false }, Some(Callback::Open))
        },
        LifetimeEvent::SlateArrived(verified) => if verified && s.opened && !s.closed {
            (s, Some(Callback::Slate))
        } else {
            (s, None)
        },
        LifetimeEvent::Ended(clean) => if s.closed {
            (s, None)
        } else {
            (
                GateState { opened: s.opened, closed: true },
                Some(Callback::Close(if clean { CloseReason::Normal } else { CloseReason::Abnormal })),
            )
        },
    }
}

/// The callbacks that a run of events delivers from state `s`.
pub open spec fn delivered(s: GateState, events: Seq<LifetimeEvent>) -> Seq<Callback>
    decreases events.len(),
{
    if events.len() == 0 {
        Seq::empty()
    } else {
        let (next, cb) = gate_step(s, events[0]);
        let rest = delivered(next, events.drop_first());
        match cb {
            Some(c) => seq![c] + rest,
            None => rest,
        }
    }
}

proof fn lemma_nothing_after_close(s: GateState, events: Seq<LifetimeEvent>)
    requires
        s.closed,
    ensures
        delivered(s, events).len() == 0,
    decreases events.len(),
{
    if events.len() > 0 {
        lemma_nothing_after_close(gate_step(s, events[0]).0, events.drop_first());
    }
}

/// Over a lifetime whose last event is the end of the connection, exactly
/// one close callback is delivered, and it is the last callback delivered;
/// nothing is delivered once a callback gate has closed.
pub proof fn lemma_one_close_last(s: GateState, events: Seq<LifetimeEvent>)
    requires
        !s.closed,
        events.len() > 0,
        events.last() is Ended,
    ensures
        delivered(s, events).len() > 0,
        delivered(s, events).last() is Close,
        forall|i: int| 0 <= i < delivered(s, events).len() - 1 ==> !(delivered(s, events)[i] is Close),
    decreases events.len(),
{
    let (next, cb) = gate_step(s, events[0]);
    let rest = events.drop_first();
    if events[0] is Ended {
        lemma_nothing_after_close(next, rest);
        assert(delivered(s, events) =~= seq![cb.unwrap()] + delivered(next, rest));
    } else {
        assert(rest.last() == events.last());
        lemma_one_close_last(next, rest);
        let d = delivered(next, rest);
        match cb {
            Some(c) => {
                assert(delivered(s, events) =~= seq![c] + d);
            },
            None => {},
        }
    }
}

/// A slate callback is delivered only for a slate whose signature verified:
/// a run of events with no verified slate delivers no slate callback.
pub proof fn lemma_slates_only_verified(s: GateState, events: Seq<LifetimeEvent>)
    requires
        forall|i: int| 0 <= i < events.len() ==> events[i] != LifetimeEvent::SlateArrived(true),
    ensures
        forall|i: int| 0 <= i < delivered(s, events).len() ==> !(delivered(s, events)[i] is Slate),
    decreases events.len(),
{
    if events.len() > 0 {
        let (next, cb) = gate_step(s, events[0]);
        let rest = events.drop_first();
        assert forall|i: int| 0 <= i < rest.len() implies rest[i] != LifetimeEvent::SlateArrived(
            true,
        ) by {
            assert(rest[i] == events[i + 1]);
        }
        lemma_slates_only_verified(next, rest);
        match cb {
            Some(c) => {
                assert(delivered(s, events) =~= seq![c] + delivered(next, rest));
            },
            None => {},
        }
    }
}

/// A connection that ends cleanly before its callback gate has closed (a stop, with
/// or without an open and whatever the relay sent) delivers a normal close.
pub proof fn lemma_clean_end_closes_normally(s: GateState)
    requires
        !s.closed,
    ensures
        gate_step(s, LifetimeEvent::Ended(true)).1 == Some(Callback::Close(CloseReason::Normal)),
        gate_step(s, LifetimeEvent::Ended(true)).0.closed,
{
}

/// Orders the callbacks of one subscription lifetime: `on_open` once and
/// first, `on_slate` only between it and the close and only for a verified
/// slate, and exactly one `on_close`, last.
pub struct CallbackGate {
    state: GateState,
}

impl CallbackGate {
    pub closed spec fn view(&self) -> GateState {
        self.state
    }

    /// A gate for a lifetime that has not begun.
    pub fn new() -> (r: CallbackGate)
        ensures
            r.view() == (GateState { opened: false, closed: false }),
    {
        CallbackGate { state: GateState { opened: false, closed: false } }
    }

    /// The connection opened: `on_open` is delivered where this returns true.
    pub fn admit_open(&mut self) -> (r: bool)
        ensures
            (final(self).view(), if r { Some(Callback::Open) } else { None }) == gate_step(
                old(self).view(),
                LifetimeEvent::Opened,
            ),
    {
        if self.state.opened || self.state.closed {
            false
        } else {
            self.state = GateState { opened: true, closed: false };
            true
        }
    }

    /// A slate arrived: `on_slate` is delivered where this returns true.
    pub fn admit_slate(&self, verified: bool) -> (r: bool)
        ensures
            (self.view(), if r { Some(Callback::Slate) } else { None }) == gate_step(
                self.view(),
                LifetimeEvent::SlateArrived(verified),
            ),
            r ==> verified,
    {
        verified && self.state.opened && !self.state.closed
    }

    /// The connection ended: `on_close` is delivered with the returned
    /// reason, if any.
    pub fn close(&mut self, clean: bool) -> (r: Option<CloseReason>)
        ensures
            (final(self).view(), match r {
                Some(reason) => Some(Callback::Close(reason)),
                None => None,
            }) == gate_step(old(self).view(), LifetimeEvent::Ended(clean)),
    {
        if self.state.closed {
            None
        } else {
            self.state = GateState { opened: self.state.opened, closed: true };
            Some(if clean { CloseReason::Normal } else { CloseReason::Abnormal })
        }
    }
}

} // verus!
