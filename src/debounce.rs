//! Coalescing bursts of high-frequency input (scrolling) while letting every other
//! event through at once.
//!
//! The state is **open** (a coalescable event may go out at once) or **suppressed**
//! (a timer is running and at most one coalescable event waits). The driver feeds
//! events, timer expiries and the end of input in, and starts a timer whenever a
//! step asks for one.
use vstd::prelude::*;

verus! {

/// The abstract state: the event waiting, if any, and whether the state is open.
pub struct DebounceState<E> {
    pub pending: Option<E>,
    pub open: bool,
}

/// Nothing waits while the state is open.
pub open spec fn debounce_wf<E>(s: DebounceState<E>) -> bool {
    s.open ==> s.pending is None
}

/// The state after an input event, and the event that goes out, if any.
pub open spec fn input_step<E>(s: DebounceState<E>, e: E, coalescable: bool) -> (
    DebounceState<E>,
    Option<E>,
) {
    if !coalescable {
        (s, Some(e))
    } else if s.open {
        (DebounceState { pending: None, open: false }, Some(e))
    } else {
        (DebounceState { pending: Some(e), open: false }, None)
    }
}

/// The state after the timer fires, and the event that goes out, if any. A waiting
/// event goes out and the window starts again; otherwise the state opens.
pub open spec fn timer_step<E>(s: DebounceState<E>) -> (DebounceState<E>, Option<E>) {
    match s.pending {
        Some(e) => (DebounceState { pending: None, open: false }, Some(e)),
        None => (DebounceState { pending: None, open: true }, None),
    }
}

pub open spec fn emitted<E>(o: Option<E>) -> Seq<E> {
    match o {
        Some(e) => seq![e],
        None => Seq::empty(),
    }
}

/// The state after a run of coalescable events with no timer expiry among them, and
/// the events that went out.
pub open spec fn burst<E>(s: DebounceState<E>, events: Seq<E>) -> (DebounceState<E>, Seq<E>)
    decreases events.len(),
{
    if events.len() == 0 {
        (s, Seq::empty())
    } else {
        let (s1, out) = burst(s, events.drop_last());
        let (s2, o) = input_step(s1, events.last(), true);
        (s2, out + emitted(o))
    }
}

proof fn lemma_burst_shape<E>(s: DebounceState<E>, events: Seq<E>)
    requires
        debounce_wf(s),
        events.len() > 0,
    ensures
        ({
            let (s1, out) = burst(s, events);
            &&& !s1.open
            &&& out.len() <= 1
            &&& (s1.pending == Some(events.last()) || (out.len() == 1 && out[0]
                == events.last() && s1.pending is None))
        }),
    decreases events.len(),
{
    let (s0, out0) = burst(s, events.drop_last());
    if events.len() > 1 {
        lemma_burst_shape(s, events.drop_last());
    } else {
        assert(events.drop_last().len() == 0);
        assert(s0 == s && out0 == Seq::<E>::empty());
    }
    let (s1, out) = burst(s, events);
    let (s2, o) = input_step(s0, events.last(), true);
    assert(s1 == s2 && out == out0 + emitted(o));
    if s0.open {
        assert(out =~= seq![events.last()]);
    } else {
        assert(out =~= out0);
    }
}

/// A burst of coalescable events that ends before one suppression window has passed
/// lets out at most two events: the leading one at once and one trailing one when the
/// timer fires; the last event let out is the last event of the burst.
pub proof fn lemma_burst_emits_at_most_two<E>(s: DebounceState<E>, events: Seq<E>)
    requires
        debounce_wf(s),
        events.len() > 0,
    ensures
        ({
            let (s1, out) = burst(s, events);
            let (s2, last) = timer_step(s1);
            let all = out + emitted(last);
            &&& 1 <= all.len() <= 2
            &&& all.last() == events.last()
        }),
{
    lemma_burst_shape(s, events);
    let (s1, out) = burst(s, events);
    let (s2, last) = timer_step(s1);
    let all = out + emitted(last);
    match s1.pending {
        Some(e) => {
            assert(all.last() == e);
        },
        None => {
            assert(all =~= out);
        },
    }
}

/// What the driver does after a step: let an event out, and start the timer.
pub struct DebounceStep<E> {
    pub emit: Option<E>,
    pub start_timer: bool,
}

/// The debouncer.
pub struct Debouncer<E> {
    pending: Option<E>,
    can_emit: bool,
}

impl<E> View for Debouncer<E> {
    type V = DebounceState<E>;

    closed spec fn view(&self) -> DebounceState<E> {
        DebounceState { pending: self.pending, open: self.can_emit }
    }
}

impl<E> Debouncer<E> {
    /// An open debouncer with nothing waiting.
    pub fn new() -> (r: Debouncer<E>)
        ensures
            r@.open,
            r@.pending is None,
    {
        Debouncer { pending: None, can_emit: true }
    }

    /// Takes one input event. A coalescable event goes out at once only while the
    /// state is open, and then starts the window; otherwise it replaces the waiting
    /// one. Any other event goes out at once and leaves the state alone.
    pub fn on_input(&mut self, e: E, coalescable: bool) -> (r: DebounceStep<E>)
        ensures
            (final(self)@, r.emit) == input_step(old(self)@, e, coalescable),
            r.start_timer == (coalescable && old(self)@.open),
            debounce_wf(old(self)@) ==> debounce_wf(final(self)@),
    {
        if !coalescable {
            DebounceStep { emit: Some(e), start_timer: false }
        } else if self.can_emit {
            self.can_emit = false;
            self.pending = None;
            DebounceStep { emit: Some(e), start_timer: true }
        } else {
            self.pending = Some(e);
            DebounceStep { emit: None, start_timer: false }
        }
    }

    /// The timer fired: a waiting event goes out and the window starts again, or the
    /// state opens.
    pub fn on_timer(&mut self) -> (r: DebounceStep<E>)
        ensures
            (final(self)@, r.emit) == timer_step(old(self)@),
            r.start_timer == (old(self)@.pending is Some),
            debounce_wf(final(self)@),
    {
        match self.pending.take() {
            Some(e) => {
                self.can_emit = false;
                DebounceStep { emit: Some(e), start_timer: true }
            },
            None => {
                self.can_emit = true;
                DebounceStep { emit: None, start_timer: false }
            },
        }
    }

    /// The input ended: the waiting event, if any, goes out last.
    pub fn on_end(&mut self) -> (r: Option<E>)
        ensures
            r == old(self)@.pending,
            final(self)@.pending is None,
    {
        self.pending.take()
    }

    /// Whether the state is open.
    pub fn is_open(&self) -> (r: bool)
        ensures
            r == self@.open,
    {
        self.can_emit
    }
}

} // verus!
