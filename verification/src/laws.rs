//! Laws of the retrieval flow, proved of the transition relation: a
//! credential failure ends the call before any channel is built, and one
//! call resolves credentials and builds the channel at most once — exactly
//! once when it succeeds.

use vstd::prelude::*;
use crate::errors::GoogleError;
use crate::machine::{VaultAction, VaultEvent, VaultState, state_accepts, step_rel};
use crate::vault::GoogleVault;

verus! {

/// A credential failure is terminal before any network connection is
/// attempted: the machine answers it with `ConfigurationError` carrying the
/// resolver's description, and the action it emits is never the channel
/// connect.
pub proof fn lemma_credential_failure_builds_no_channel(
    v: GoogleVault,
    secret_name: Seq<char>,
    state: VaultState,
    msg: String,
    next: VaultState,
    action: VaultAction,
)
    requires
        state_accepts(state, VaultEvent::CredentialsResolved(Err(msg))),
        step_rel(v, secret_name, state, VaultEvent::CredentialsResolved(Err(msg)), next, action),
    ensures
        !(action is ConnectChannel),
        !(action is AccessSecretVersion),
        next matches VaultState::Finished(Err(e)) && e matches GoogleError::ConfigurationError(m)
            && m == msg,
{
}

/// The channel is connected only on the one transition that follows a
/// successful credential resolution; nothing else ever asks for it.
pub proof fn lemma_connect_follows_credentials(
    v: GoogleVault,
    secret_name: Seq<char>,
    state: VaultState,
    event: VaultEvent,
    next: VaultState,
    action: VaultAction,
)
    requires
        state_accepts(state, event),
        step_rel(v, secret_name, state, event, next, action),
        action is ConnectChannel,
    ensures
        state is AwaitingCredentials,
        event matches VaultEvent::CredentialsResolved(o) && o is Ok,
        next is AwaitingChannel,
{
}

/// How far along the linear flow a state stands.
pub open spec fn phase(state: VaultState) -> int {
    match state {
        VaultState::Start => 0,
        VaultState::AwaitingCredentials => 1,
        VaultState::AwaitingChannel => 2,
        VaultState::AwaitingCall => 3,
        VaultState::Finished(_) => 4,
    }
}

/// Every accepted transition moves strictly forward: the flow is linear
/// and never revisits a state.
pub proof fn lemma_flow_moves_forward(
    v: GoogleVault,
    secret_name: Seq<char>,
    state: VaultState,
    event: VaultEvent,
    next: VaultState,
    action: VaultAction,
)
    requires
        state_accepts(state, event),
        step_rel(v, secret_name, state, event, next, action),
    ensures
        phase(next) > phase(state),
{
}

/// One whole call, as the driver sees it: `states` visits `events.len() + 1`
/// states, the first event answers the first state, and every step obeys
/// the transition relation.
pub open spec fn valid_trace(
    v: GoogleVault,
    secret_name: Seq<char>,
    states: Seq<VaultState>,
    events: Seq<VaultEvent>,
    actions: Seq<VaultAction>,
) -> bool {
    &&& states.len() == events.len() + 1
    &&& actions.len() == events.len()
    &&& forall|i: int| 0 <= i < events.len() ==> state_accepts(#[trigger] states[i], events[i])
        && step_rel(v, secret_name, states[i], events[i], states[i + 1], actions[i])
}

/// How many of the actions connect the channel.
pub open spec fn connect_count(actions: Seq<VaultAction>) -> int
    decreases actions.len(),
{
    if actions.len() == 0 {
        0
    } else {
        connect_count(actions.drop_last()) + if actions.last() is ConnectChannel { 1int } else { 0int }
    }
}

/// How many of the actions resolve credentials.
pub open spec fn resolve_count(actions: Seq<VaultAction>) -> int
    decreases actions.len(),
{
    if actions.len() == 0 {
        0
    } else {
        resolve_count(actions.drop_last()) + if actions.last() is ResolveCredentials { 1int } else { 0int }
    }
}

/// The bookkeeping a trace maintains at every prefix: the counts are pinned
/// by how far the flow has come, so nothing is resolved or connected twice.
pub open spec fn counts_match_state(
    state: VaultState,
    resolves: int,
    connects: int,
) -> bool {
    &&& 0 <= connects <= 1
    &&& 0 <= resolves <= 1
    &&& resolves == if state is Start { 0int } else { 1int }
    &&& (state is Start || state is AwaitingCredentials) ==> connects == 0
    &&& (state is AwaitingChannel || state is AwaitingCall) ==> connects == 1
    &&& (state matches VaultState::Finished(r) && r is Ok) ==> connects == 1
}

/// Along any call that starts at `Start`, every prefix keeps the counts the
/// flow allows: credentials are resolved at most once, the channel is
/// connected at most once, and a call that ends successfully has done each
/// exactly once.
pub proof fn lemma_trace_counts(
    v: GoogleVault,
    secret_name: Seq<char>,
    states: Seq<VaultState>,
    events: Seq<VaultEvent>,
    actions: Seq<VaultAction>,
)
    requires
        valid_trace(v, secret_name, states, events, actions),
        states[0] is Start,
    ensures
        counts_match_state(states.last(), resolve_count(actions), connect_count(actions)),
    decreases events.len(),
{
    if events.len() == 0 {
        assert(states.last() == states[0]);
    } else {
        let n = events.len() as int;
        let states2 = states.drop_last();
        let events2 = events.drop_last();
        let actions2 = actions.drop_last();
        assert(valid_trace(v, secret_name, states2, events2, actions2)) by {
            assert forall|i: int| 0 <= i < events2.len() implies state_accepts(
                #[trigger] states2[i],
                events2[i],
            ) && step_rel(v, secret_name, states2[i], events2[i], states2[i + 1], actions2[i]) by {
                assert(state_accepts(states[i], events[i]));
                assert(step_rel(v, secret_name, states[i], events[i], states[i + 1], actions[i]));
            }
        }
        lemma_trace_counts(v, secret_name, states2, events2, actions2);
        assert(states2.last() == states[n - 1]);
        assert(state_accepts(states[n - 1], events[n - 1]));
        assert(step_rel(v, secret_name, states[n - 1], events[n - 1], states[n], actions[n - 1]));
        assert(states.last() == states[n]);
        assert(actions.last() == actions[n - 1]);
    }
}

/// One call never builds the channel twice, and never resolves credentials
/// twice: each is asked for at most once per call.
pub proof fn lemma_channel_built_at_most_once(
    v: GoogleVault,
    secret_name: Seq<char>,
    states: Seq<VaultState>,
    events: Seq<VaultEvent>,
    actions: Seq<VaultAction>,
)
    requires
        valid_trace(v, secret_name, states, events, actions),
        states[0] is Start,
    ensures
        connect_count(actions) <= 1,
        resolve_count(actions) <= 1,
{
    lemma_trace_counts(v, secret_name, states, events, actions);
}

/// What one call returns is decided by the remote outcome alone: when the
/// last event of a call reports the remote call's outcome, the finished
/// result relates to that exact outcome — a carried status, the terminal
/// empty-secret error, or the decoding of that exact payload.
pub proof fn lemma_result_reflects_remote_outcome(
    v: GoogleVault,
    secret_name: Seq<char>,
    states: Seq<VaultState>,
    events: Seq<VaultEvent>,
    actions: Seq<VaultAction>,
)
    requires
        valid_trace(v, secret_name, states, events, actions),
        events.len() > 0,
        events.last() is CallCompleted,
    ensures
        states.last() matches VaultState::Finished(r)
            && (events.last() matches VaultEvent::CallCompleted(outcome)
                && crate::machine::call_outcome_matches(outcome, r)),
{
    let n = events.len() as int;
    assert(state_accepts(states[n - 1], events[n - 1]));
    assert(step_rel(v, secret_name, states[n - 1], events[n - 1], states[n], actions[n - 1]));
}

/// A call that ends successfully has resolved a fresh credential and built
/// a fresh channel exactly once each: nothing was cached from an earlier
/// call, and nothing was done twice.
pub proof fn lemma_successful_call_builds_one_channel(
    v: GoogleVault,
    secret_name: Seq<char>,
    states: Seq<VaultState>,
    events: Seq<VaultEvent>,
    actions: Seq<VaultAction>,
)
    requires
        valid_trace(v, secret_name, states, events, actions),
        states[0] is Start,
        states.last() matches VaultState::Finished(r) && r is Ok,
    ensures
        connect_count(actions) == 1,
        resolve_count(actions) == 1,
{
    lemma_trace_counts(v, secret_name, states, events, actions);
}

} // verus!
