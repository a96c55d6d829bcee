//! Properties that relate the engine's decisions to one another.

use vstd::prelude::*;
use crate::lifecycle::{
    accept_step_spec, begin_spec, stop_spec, AcceptAction, AcceptEvent, GenerationState,
};
use crate::rules::{
    is_first_match, lemma_first_match_unique, lookup_spec, no_match, normalized_target, Rule,
};

verus! {

/// A lookup finds the first enabled rule whose domain is exactly the host,
/// scanning in order: it finds nothing exactly when no enabled rule has
/// that domain, it gives the normalised target of the first one otherwise,
/// and a disabled rule is never the one it picks.
pub proof fn lemma_lookup_first_enabled(rules: Seq<Rule>, host: Seq<char>)
    ensures
        lookup_spec(rules, host) is None <==> no_match(rules, host),
        forall|i: int|
            #[trigger] is_first_match(rules, host, i) ==> lookup_spec(rules, host) == Some(
                normalized_target(rules[i].target@),
            ),
        forall|i: int|
            0 <= i < rules.len() && !rules[i].enabled ==> !#[trigger] is_first_match(rules, host, i),
        !no_match(rules, host) ==> exists|i: int| #[trigger] is_first_match(rules, host, i),
{
    if !no_match(rules, host) {
        lemma_first_match_exists(rules, host);
    }
    assert forall|i: int| #[trigger] is_first_match(rules, host, i) implies lookup_spec(rules, host)
        == Some(normalized_target(rules[i].target@)) by {
        let j = choose|j: int| is_first_match(rules, host, j);
        lemma_first_match_unique(rules, host, i, j);
    }
}

proof fn lemma_first_match_exists(rules: Seq<Rule>, host: Seq<char>)
    requires
        !no_match(rules, host),
    ensures
        exists|i: int| is_first_match(rules, host, i),
    decreases rules.len(),
{
    let k = choose|k: int| 0 <= k < rules.len() && crate::rules::rule_applies(rules[k], host);
    if crate::rules::rule_applies(rules[0], host) {
        assert(is_first_match(rules, host, 0));
    } else {
        let rest = rules.drop_first();
        assert(crate::rules::rule_applies(rest[k - 1], host));
        lemma_first_match_exists(rest, host);
        let j = choose|j: int| is_first_match(rest, host, j);
        assert forall|m: int| 0 <= m < j + 1 implies !crate::rules::rule_applies(
            #[trigger] rules[m],
            host,
        ) by {
            if m > 0 {
                assert(rules[m] == rest[m - 1]);
            }
        }
        assert(is_first_match(rules, host, j + 1));
    }
}

/// Starting while a generation is current supersedes it: the earlier
/// generation has then been told to stop, as has every generation but the
/// new one, which is current, and an accept loop that sees its signal
/// fire leaves its loop.
pub proof fn lemma_start_supersedes(s: GenerationState, previous: nat)
    requires
        s.wf(),
        s.current == Some(previous),
    ensures
        begin_spec(s).wf(),
        begin_spec(s).stop_requested(previous),
        begin_spec(s).current == Some(s.started),
        s.started != previous,
        forall|g: nat| g < begin_spec(s).started && g != s.started ==> #[trigger] begin_spec(s).stop_requested(g),
        accept_step_spec(AcceptEvent::Signal(true)) == AcceptAction::Exit,
        accept_step_spec(AcceptEvent::SignalGone) == AcceptAction::Exit,
{
}

/// Stopping ends the current generation: afterwards every generation ever
/// started has been told to stop, stopping again changes nothing, each
/// accept loop leaves on seeing its signal fire, and a loop that accepts a
/// connection hands it on to be served.
pub proof fn lemma_stop_ends_generation(s: GenerationState)
    requires
        s.wf(),
    ensures
        stop_spec(s).wf(),
        stop_spec(s).current is None,
        forall|g: nat| g < s.started ==> #[trigger] stop_spec(s).stop_requested(g),
        stop_spec(stop_spec(s)) == stop_spec(s),
        accept_step_spec(AcceptEvent::Signal(true)) == AcceptAction::Exit,
        accept_step_spec(AcceptEvent::SignalGone) == AcceptAction::Exit,
        accept_step_spec(AcceptEvent::Connection) == AcceptAction::Serve,
{
}

} // verus!
