//! Time-windowed de-duplication of deep-link activations.
//!
//! One user action can reach the application twice: as the launch arguments
//! of a second process and as a native "open URL" callback. The
//! [`Deduplicator`] remembers the single most recent accepted activation and
//! drops an activation that repeats it within the window.

use vstd::prelude::*;

verus! {

/// Length of the default de-duplication window: two seconds, in nanoseconds.
pub const DEFAULT_WINDOW_NANOS: u128 = 2_000_000_000;

/// What the deduplicator decides for one activation.
#[derive(Clone, Copy, Debug, PartialEq, Eq, Structural)]
pub enum Decision {
    /// The activation is new: it is remembered and forwarded.
    Accept,
    /// The activation repeats the remembered one within the window: nothing
    /// further happens.
    Drop,
}

/// Mathematical value of an activation: the URL as a sequence of characters
/// and the arrival time in nanoseconds on a monotonic clock.
pub struct Activation {
    pub url: Seq<char>,
    pub at: nat,
}

/// Mathematical value of a deduplicator: the last accepted activation, if
/// any, and the length of the window in nanoseconds.
pub struct DedupState {
    pub last: Option<Activation>,
    pub window: nat,
}

impl DedupState {
    /// The state at process start: nothing remembered.
    pub open spec fn empty(window: nat) -> DedupState {
        DedupState { last: None, window }
    }

    /// `event` carries the remembered URL and arrived less than one window
    /// after the remembered activation was accepted.
    pub open spec fn repeats(self, event: Activation) -> bool {
        match self.last {
            Some(last) => last.url == event.url && event.at - last.at < self.window,
            None => false,
        }
    }

    /// The decision for `event` in this state.
    pub open spec fn decide(self, event: Activation) -> Decision {
        if self.repeats(event) {
            Decision::Drop
        } else {
            Decision::Accept
        }
    }

    /// The state after `event` was evaluated: a dropped activation leaves it
    /// as it is, an accepted one replaces what was remembered.
    pub open spec fn step(self, event: Activation) -> DedupState {
        if self.repeats(event) {
            self
        } else {
            DedupState { last: Some(event), window: self.window }
        }
    }

    /// The decisions for `events`, evaluated one after the other.
    pub open spec fn decisions(self, events: Seq<Activation>) -> Seq<Decision>
        decreases events.len(),
    {
        if events.len() == 0 {
            Seq::empty()
        } else {
            seq![self.decide(events[0])] + self.step(events[0]).decisions(events.drop_first())
        }
    }

    /// The state after `events` were evaluated one after the other.
    pub open spec fn run(self, events: Seq<Activation>) -> DedupState
        decreases events.len(),
    {
        if events.len() == 0 {
            self
        } else {
            self.step(events[0]).run(events.drop_first())
        }
    }
}

/// Number of `Accept` among `decisions`.
pub open spec fn accepted(decisions: Seq<Decision>) -> nat
    decreases decisions.len(),
{
    if decisions.len() == 0 {
        0
    } else if decisions[0] == Decision::Accept {
        1 + accepted(decisions.drop_first())
    } else {
        accepted(decisions.drop_first())
    }
}

/// One inbound activation: a non-empty URL and the time at which it was
/// observed, in nanoseconds on a monotonic clock.
pub struct ActivationEvent {
    url: String,
    observed_at: u128,
}

impl View for ActivationEvent {
    type V = Activation;

    closed spec fn view(&self) -> Activation {
        Activation { url: self.url@, at: self.observed_at as nat }
    }
}

impl ActivationEvent {
    #[verifier::type_invariant]
    spec fn has_url(self) -> bool {
        self.url@.len() > 0
    }

    /// Packages an activation. An empty URL is no activation: the result is
    /// `None` exactly then.
    pub fn new(url: String, observed_at: u128) -> (event: Option<ActivationEvent>)
        ensures
            url@.len() == 0 ==> event is None,
            url@.len() > 0 ==> event is Some && event->0@ == (Activation {
                url: url@,
                at: observed_at as nat,
            }),
    {
        if url.as_str().is_empty() {
            None
        } else {
            Some(ActivationEvent { url, observed_at })
        }
    }

    /// The URL, as it arrived.
    pub fn url(&self) -> (url: &String)
        ensures
            url@ == self@.url,
            url@.len() > 0,
    {
        proof {
            use_type_invariant(self);
        }
        &self.url
    }

    /// The arrival time in nanoseconds.
    pub fn observed_at(&self) -> (at: u128)
        ensures
            at == self@.at,
    {
        self.observed_at
    }
}

/// The de-duplication state and the operation on it. `evaluate` takes
/// `&mut self`: the read, the decision and the write happen under exclusive
/// access. Callers on several threads share one deduplicator behind a lock
/// and hold the lock across the call.
pub struct Deduplicator {
    last: Option<(String, u128)>,
    window: u128,
}

impl View for Deduplicator {
    type V = DedupState;

    closed spec fn view(&self) -> DedupState {
        DedupState {
            last: match self.last {
                Some((url, at)) => Some(Activation { url: url@, at: at as nat }),
                None => None,
            },
            window: self.window as nat,
        }
    }
}

impl Deduplicator {
    /// A deduplicator that remembers nothing, with the default window.
    pub fn new() -> (dedup: Deduplicator)
        ensures
            dedup@ == DedupState::empty(DEFAULT_WINDOW_NANOS as nat),
    {
        Deduplicator { last: None, window: DEFAULT_WINDOW_NANOS }
    }

    /// A deduplicator that remembers nothing, with a window of
    /// `window_nanos` nanoseconds.
    pub fn with_window(window_nanos: u128) -> (dedup: Deduplicator)
        ensures
            dedup@ == DedupState::empty(window_nanos as nat),
    {
        Deduplicator { last: None, window: window_nanos }
    }

    /// The length of the window in nanoseconds.
    pub fn window(&self) -> (window_nanos: u128)
        ensures
            window_nanos == self@.window,
    {
        self.window
    }

    /// The URL and arrival time of the last accepted activation.
    pub fn last_accepted(&self) -> (last: Option<(String, u128)>)
        ensures
            match last {
                Some((url, at)) => self@.last == Some(Activation { url: url@, at: at as nat }),
                None => self@.last is None,
            },
    {
        match &self.last {
            Some((url, at)) => Some((url.clone(), *at)),
            None => None,
        }
    }

    /// Classifies `event` and updates the state: `Drop` if it repeats the
    /// remembered activation within the window, in which case the state
    /// keeps the time of the first sighting; `Accept` otherwise, in which
    /// case `event` becomes the remembered activation.
    pub fn evaluate(&mut self, event: ActivationEvent) -> (decision: Decision)
        ensures
            decision == old(self)@.decide(event@),
            final(self)@ == old(self)@.step(event@),
    {
        let repeats = match &self.last {
            Some((url, at)) => {
                *url == event.url && (event.observed_at < *at || event.observed_at - *at
                    < self.window)
            },
            None => false,
        };
        if repeats {
            Decision::Drop
        } else {
            self.last = Some((event.url, event.observed_at));
            Decision::Accept
        }
    }
}

/// The first activation that a deduplicator sees is accepted.
pub proof fn law_first_is_accepted(window: nat, e: Activation)
    ensures
        DedupState::empty(window).decide(e) == Decision::Accept,
        DedupState::empty(window).step(e).last == Some(e),
{
}

/// Two activations with the same URL, the second less than one window after
/// the first: on a fresh deduplicator the first is accepted and the second
/// dropped. More generally the second is dropped in whatever state accepted
/// the first.
pub proof fn law_repeat_within_window(s: DedupState, e1: Activation, e2: Activation)
    requires
        e1.url == e2.url,
        e2.at - e1.at < s.window,
    ensures
        DedupState::empty(s.window).decisions(seq![e1, e2]) == seq![
            Decision::Accept,
            Decision::Drop,
        ],
        s.decide(e1) == Decision::Accept ==> s.step(e1).decide(e2) == Decision::Drop,
        s.decide(e1) == Decision::Accept ==> s.step(e1).step(e2) == s.step(e1),
{
    lemma_decisions_of_two(DedupState::empty(s.window), e1, e2);
}

/// Two activations with the same URL, the second at least one window after
/// the first: on a fresh deduplicator both are accepted. More generally the
/// second is accepted in whatever state accepted the first.
pub proof fn law_repeat_after_window(s: DedupState, e1: Activation, e2: Activation)
    requires
        e1.url == e2.url,
        e2.at - e1.at >= s.window,
    ensures
        DedupState::empty(s.window).decisions(seq![e1, e2]) == seq![
            Decision::Accept,
            Decision::Accept,
        ],
        s.decide(e1) == Decision::Accept ==> s.step(e1).decide(e2) == Decision::Accept,
{
    lemma_decisions_of_two(DedupState::empty(s.window), e1, e2);
}

/// Two activations with different URLs, whatever their times: on a fresh
/// deduplicator both are accepted, and in every state the second is
/// accepted.
pub proof fn law_different_urls(s: DedupState, e1: Activation, e2: Activation)
    requires
        e1.url != e2.url,
    ensures
        DedupState::empty(s.window).decisions(seq![e1, e2]) == seq![
            Decision::Accept,
            Decision::Accept,
        ],
        s.step(e1).decide(e2) == Decision::Accept,
{
    lemma_decisions_of_two(DedupState::empty(s.window), e1, e2);
}

/// A burst of activations with one URL, each less than one window after the
/// first of them, in a state that accepts the first: exactly the first is
/// accepted, every other is dropped, and the state afterwards still holds
/// the first with its own time, so the window is not renewed by the
/// repetitions.
pub proof fn law_burst_accepts_first_only(s: DedupState, events: Seq<Activation>)
    requires
        events.len() > 0,
        s.decide(events[0]) == Decision::Accept,
        forall|i: int|
            0 <= i < events.len() ==> (#[trigger] events[i]).url == events[0].url && events[i].at
                - events[0].at < s.window,
    ensures
        s.decisions(events).len() == events.len(),
        s.decisions(events)[0] == Decision::Accept,
        forall|i: int| 1 <= i < events.len() ==> s.decisions(events)[i] == Decision::Drop,
        accepted(s.decisions(events)) == 1,
        s.run(events) == s.step(events[0]),
        s.run(events).last == Some(events[0]),
{
    let rest = events.drop_first();
    let held = s.step(events[0]);
    assert forall|i: int| 0 <= i < rest.len() implies held.repeats(#[trigger] rest[i]) by {
        assert(rest[i] == events[i + 1]);
    }
    lemma_repeats_are_dropped(held, rest);
    assert(s.decisions(events).drop_first() =~= held.decisions(rest));
}

/// Submissions of one URL that lie pairwise less than one window apart,
/// evaluated on a fresh deduplicator in any order: exactly one of them is
/// accepted. A lock around `evaluate` turns every interleaving of
/// concurrent submissions into one such order.
pub proof fn law_serialized_submissions_accept_once(window: nat, events: Seq<Activation>)
    requires
        events.len() > 0,
        forall|i: int, j: int|
            0 <= i < events.len() && 0 <= j < events.len() ==> (#[trigger] events[i]).url == (
            #[trigger] events[j]).url && events[j].at - events[i].at < window,
    ensures
        accepted(DedupState::empty(window).decisions(events)) == 1,
        DedupState::empty(window).decisions(events)[0] == Decision::Accept,
{
    assert forall|i: int| 0 <= i < events.len() implies (#[trigger] events[i]).url
        == events[0].url && events[i].at - events[0].at < window by {
        assert(events[0].url == events[i].url);
    }
    law_burst_accepts_first_only(DedupState::empty(window), events);
}

/// The decisions for two activations, written out.
proof fn lemma_decisions_of_two(s: DedupState, e1: Activation, e2: Activation)
    ensures
        s.decisions(seq![e1, e2]) == seq![s.decide(e1), s.step(e1).decide(e2)],
{
    let both = seq![e1, e2];
    let second = both.drop_first();
    assert(second =~= seq![e2]);
    assert(second.drop_first() =~= Seq::<Activation>::empty());
    assert(s.step(e1).step(e2).decisions(second.drop_first()) =~= Seq::<Decision>::empty());
    assert(s.step(e1).decisions(second) =~= seq![s.step(e1).decide(e2)]);
    assert(s.decisions(both) =~= seq![s.decide(e1), s.step(e1).decide(e2)]);
}

/// Activations that all repeat what the state holds are all dropped and
/// leave the state as it is.
proof fn lemma_repeats_are_dropped(s: DedupState, events: Seq<Activation>)
    requires
        forall|i: int| 0 <= i < events.len() ==> s.repeats(#[trigger] events[i]),
    ensures
        s.decisions(events).len() == events.len(),
        forall|i: int| 0 <= i < events.len() ==> s.decisions(events)[i] == Decision::Drop,
        accepted(s.decisions(events)) == 0,
        s.run(events) == s,
    decreases events.len(),
{
    if events.len() > 0 {
        let rest = events.drop_first();
        assert(s.repeats(events[0]));
        assert forall|i: int| 0 <= i < rest.len() implies s.repeats(#[trigger] rest[i]) by {
            assert(rest[i] == events[i + 1]);
        }
        lemma_repeats_are_dropped(s, rest);
        assert(s.decisions(events).drop_first() =~= s.decisions(rest));
    }
}

} // verus!
