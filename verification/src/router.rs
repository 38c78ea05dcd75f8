//! Routing of activations: what to do with the URLs that the two event
//! sources deliver. The functions decide; the caller performs the actions in
//! the order in which they are returned.

use crate::dedup::{Activation, ActivationEvent, Decision, DedupState, Deduplicator};
use crate::text::has_prefix;
use vstd::prelude::*;

verus! {

/// Prefix of the URLs of the registered scheme.
pub const SCHEME_PREFIX: &'static str = "opencalendar://";

/// Mathematical value of a [`RouterAction`].
pub enum Effect {
    RaiseWindow,
    Forward(Seq<Seq<char>>),
}

/// One side effect that the router asks for.
#[derive(Debug)]
pub enum RouterAction {
    /// Show the main window and give it the focus. A failure of this is
    /// ignored by the caller.
    RaiseWindow,
    /// Hand these URLs, in this order, to the user interface as one
    /// notification.
    Forward(Vec<String>),
}

impl DeepView for RouterAction {
    type V = Effect;

    open spec fn deep_view(&self) -> Effect {
        match self {
            RouterAction::RaiseWindow => Effect::RaiseWindow,
            RouterAction::Forward(urls) => Effect::Forward(urls.deep_view()),
        }
    }
}

/// Outcome of routing: the state of the deduplicator afterwards and the
/// effects asked for, in order.
pub struct Routed {
    pub state: DedupState,
    pub effects: Seq<Effect>,
}

/// The effects of one decision about `urls`: an accepted activation raises
/// the window and then forwards the URLs, a dropped one does nothing.
pub open spec fn effects_of(decision: Decision, urls: Seq<Seq<char>>) -> Seq<Effect> {
    match decision {
        Decision::Accept => seq![Effect::RaiseWindow, Effect::Forward(urls)],
        Decision::Drop => Seq::empty(),
    }
}

/// Whether a launch argument is a URL of the registered scheme.
pub open spec fn is_deep_link(arg: Seq<char>) -> bool {
    SCHEME_PREFIX@.is_prefix_of(arg)
}

/// Routing of a native "open URL" callback that delivered `urls` at time
/// `at`. Without a first URL, or with an empty one, there is no activation.
/// Otherwise the first URL is evaluated, and an accepted activation forwards
/// all the URLs together.
pub open spec fn open_urls(s: DedupState, urls: Seq<Seq<char>>, at: nat) -> Routed {
    if urls.len() == 0 || urls[0].len() == 0 {
        Routed { state: s, effects: Seq::empty() }
    } else {
        let event = Activation { url: urls[0], at };
        Routed { state: s.step(event), effects: effects_of(s.decide(event), urls) }
    }
}

/// Routing of the launch arguments `args` of a second instance, received at
/// time `at`: each argument of the registered scheme is evaluated on its
/// own, in order, and forwarded alone if accepted; the others are skipped.
pub open spec fn launch_args(s: DedupState, args: Seq<Seq<char>>, at: nat) -> Routed
    decreases args.len(),
{
    if args.len() == 0 {
        Routed { state: s, effects: Seq::empty() }
    } else if is_deep_link(args[0]) {
        let event = Activation { url: args[0], at };
        let rest = launch_args(s.step(event), args.drop_first(), at);
        Routed {
            state: rest.state,
            effects: effects_of(s.decide(event), seq![args[0]]) + rest.effects,
        }
    } else {
        launch_args(s, args.drop_first(), at)
    }
}

/// Routes a native "open URL" callback.
pub fn route_open_urls(dedup: &mut Deduplicator, urls: Vec<String>, observed_at: u128) -> (actions:
    Vec<RouterAction>)
    ensures
        final(dedup)@ == open_urls(old(dedup)@, urls.deep_view(), observed_at as nat).state,
        actions.deep_view() == open_urls(
            old(dedup)@,
            urls.deep_view(),
            observed_at as nat,
        ).effects,
{
    let mut actions: Vec<RouterAction> = Vec::new();
    if urls.len() == 0 {
        assert(actions.deep_view() =~= Seq::<Effect>::empty());
        return actions;
    }
    assert(urls.deep_view()[0] == urls[0]@);
    if let Some(event) = ActivationEvent::new(urls[0].clone(), observed_at) {
        if dedup.evaluate(event) == Decision::Accept {
            let ghost forwarded = urls.deep_view();
            actions.push(RouterAction::RaiseWindow);
            actions.push(RouterAction::Forward(urls));
            assert(actions.deep_view() =~= seq![Effect::RaiseWindow, Effect::Forward(forwarded)]);
            return actions;
        }
    }
    assert(actions.deep_view() =~= Seq::<Effect>::empty());
    actions
}

/// Routes the launch arguments of a second instance.
pub fn route_launch_args(dedup: &mut Deduplicator, args: Vec<String>, observed_at: u128) -> (actions:
    Vec<RouterAction>)
    ensures
        final(dedup)@ == launch_args(old(dedup)@, args.deep_view(), observed_at as nat).state,
        actions.deep_view() == launch_args(
            old(dedup)@,
            args.deep_view(),
            observed_at as nat,
        ).effects,
{
    let mut actions: Vec<RouterAction> = Vec::new();
    let ghost all = args.deep_view();
    let ghost at = observed_at as nat;
    let ghost start = dedup@;
    let mut i: usize = 0;
    assert(all.skip(0) =~= all);
    assert(actions.deep_view() =~= Seq::<Effect>::empty());
    while i < args.len()
        invariant
            i <= args.len(),
            all == args.deep_view(),
            at == observed_at as nat,
            launch_args(start, all, at).state == launch_args(dedup@, all.skip(i as int), at).state,
            launch_args(start, all, at).effects == actions.deep_view() + launch_args(
                dedup@,
                all.skip(i as int),
                at,
            ).effects,
        decreases args.len() - i,
    {
        let ghost before = dedup@;
        let ghost done = actions.deep_view();
        let ghost arg = all[i as int];
        assert(arg == args[i as int]@);
        assert(all.skip(i as int)[0] == arg);
        assert(all.skip(i as int).drop_first() =~= all.skip(i + 1));
        if has_prefix(args[i].as_str(), SCHEME_PREFIX) {
            proof {
                reveal_strlit("opencalendar://");
            }
            // An argument with the prefix is not empty, so it is an event.
            if let Some(event) = ActivationEvent::new(args[i].clone(), observed_at) {
                if dedup.evaluate(event) == Decision::Accept {
                    let single: Vec<String> = vec![args[i].clone()];
                    assert(single.deep_view() =~= seq![arg]);
                    actions.push(RouterAction::RaiseWindow);
                    actions.push(RouterAction::Forward(single));
                    assert(actions.deep_view() =~= done + effects_of(
                        Decision::Accept,
                        seq![arg],
                    ));
                }
            }
            assert(launch_args(before, all.skip(i as int), at).effects =~= effects_of(
                before.decide(Activation { url: arg, at }),
                seq![arg],
            ) + launch_args(dedup@, all.skip(i + 1), at).effects);
        }
        i = i + 1;
    }
    assert(all.skip(i as int) =~= Seq::<Seq<char>>::empty());
    actions
}

/// A URL that the native callback delivered and that the deduplicator
/// accepted is forwarded once: launch arguments that arrive less than one
/// window later, and hold nothing of the registered scheme but that URL,
/// cause no effect and leave the state as it is.
pub proof fn law_second_source_is_silent(
    s: DedupState,
    url: Seq<char>,
    at: nat,
    later: nat,
    args: Seq<Seq<char>>,
)
    requires
        url.len() > 0,
        s.decide(Activation { url, at }) == Decision::Accept,
        later - at < s.window,
        forall|i: int| 0 <= i < args.len() && is_deep_link(#[trigger] args[i]) ==> args[i] == url,
    ensures
        open_urls(s, seq![url], at).effects == seq![
            Effect::RaiseWindow,
            Effect::Forward(seq![url]),
        ],
        launch_args(open_urls(s, seq![url], at).state, args, later).effects == Seq::<
            Effect,
        >::empty(),
        launch_args(open_urls(s, seq![url], at).state, args, later).state == open_urls(
            s,
            seq![url],
            at,
        ).state,
{
    lemma_repeated_args_are_silent(open_urls(s, seq![url], at).state, url, later, args);
}

/// Launch arguments of which each is either not of the registered scheme or
/// a repetition of what the state holds cause no effect.
proof fn lemma_repeated_args_are_silent(
    s: DedupState,
    url: Seq<char>,
    at: nat,
    args: Seq<Seq<char>>,
)
    requires
        s.repeats(Activation { url, at }),
        forall|i: int| 0 <= i < args.len() && is_deep_link(#[trigger] args[i]) ==> args[i] == url,
    ensures
        launch_args(s, args, at).effects == Seq::<Effect>::empty(),
        launch_args(s, args, at).state == s,
    decreases args.len(),
{
    if args.len() > 0 {
        let rest = args.drop_first();
        assert forall|i: int| 0 <= i < rest.len() && is_deep_link(#[trigger] rest[i]) implies rest[i]
            == url by {
            assert(rest[i] == args[i + 1]);
        }
        lemma_repeated_args_are_silent(s, url, at, rest);
        if is_deep_link(args[0]) {
            assert(args[0] == url);
            assert(launch_args(s, args, at).effects =~= Seq::<Effect>::empty());
        }
    }
}

} // verus!
