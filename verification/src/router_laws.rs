//! What holds of the router over whole sequences of requests.

use crate::daemon::{
    admit_effect, conclude_effect, connect_effect, dialed_effect, kill_effect, listener_effect,
    lost_effect, query_effect, relay_effect, run_effect, transfer_effect, DialOutcome,
    RouterActionModel, RouterModel, TransferModel, TransferOutcome,
};
use vstd::prelude::*;

verus! {

/// Something that the router is asked to serve or to conclude.
pub enum RouterInput {
    /// A connect request with this address.
    Connect { host: Seq<u8> },
    /// The dial of a connect request with this kind byte ended.
    Dialed { kind: u8, outcome: DialOutcome },
    /// A run request with this mode byte.
    Run { mode: u8 },
    /// A request to have inputs forwarded.
    InputListener,
    /// A devices query.
    QueryDevices,
    /// This much of the session's devices reply has been read, and the
    /// session has closed its socket or not.
    DevicesReply { reply: Seq<u8>, closed: bool },
    /// The session could not be written to.
    SessionLost,
    /// An upload or download request with this body.
    Transfer { upload: bool, body: Seq<u8> },
    /// The local file of this transfer was looked for.
    Probed { transfer: TransferModel, file_exists: bool },
    /// A file transfer ended.
    Moved { outcome: TransferOutcome },
    /// A kill request.
    Kill,
}

/// What the router does with an input.
pub open spec fn route(s: RouterModel, input: RouterInput) -> (
    RouterModel,
    Seq<RouterActionModel>,
) {
    match input {
        RouterInput::Connect { host } => connect_effect(s, host),
        RouterInput::Dialed { kind, outcome } => dialed_effect(s, kind, outcome),
        RouterInput::Run { mode } => run_effect(s, mode),
        RouterInput::InputListener => listener_effect(s),
        RouterInput::QueryDevices => query_effect(s),
        RouterInput::DevicesReply { reply, closed } => relay_effect(s, reply, closed),
        RouterInput::SessionLost => lost_effect(s),
        RouterInput::Transfer { upload, body } => transfer_effect(s, upload, body),
        RouterInput::Probed { transfer, file_exists } => admit_effect(s, transfer, file_exists),
        RouterInput::Moved { outcome } => conclude_effect(s, outcome),
        RouterInput::Kill => kill_effect(s),
    }
}

/// The router after a sequence of inputs, and all the actions that it asked
/// for, in order.
pub open spec fn route_all(s: RouterModel, inputs: Seq<RouterInput>) -> (
    RouterModel,
    Seq<RouterActionModel>,
)
    decreases inputs.len(),
{
    if inputs.len() == 0 {
        (s, Seq::empty())
    } else {
        let before = route_all(s, inputs.drop_last());
        let step = route(before.0, inputs.last());
        (step.0, before.1 + step.1)
    }
}

/// How many sessions may be open after an action, if `open` were before it:
/// a dial may open one, and closing leaves none.
pub open spec fn open_after(open: nat, action: RouterActionModel) -> nat {
    match action {
        RouterActionModel::Dial { host } => open + 1,
        RouterActionModel::CloseSession => 0,
        _ => open,
    }
}

/// How many sessions may be open after a list of actions.
pub open spec fn open_sessions(open: nat, actions: Seq<RouterActionModel>) -> nat
    decreases actions.len(),
{
    if actions.len() == 0 {
        open
    } else {
        open_after(open_sessions(open, actions.drop_last()), actions.last())
    }
}

/// Whether at most one session is open at every point of a list of actions.
pub open spec fn never_two(open: nat, actions: Seq<RouterActionModel>) -> bool {
    forall|n: int| 0 <= n <= actions.len() ==> #[trigger] open_sessions(open, actions.take(n)) <= 1
}

/// Whether the session that is replaced is closed before the new one is
/// dialled: every dial comes directly after a close.
pub open spec fn closes_before_dial(actions: Seq<RouterActionModel>) -> bool {
    forall|i: int|
        0 <= i < actions.len() && (#[trigger] actions[i]) is Dial ==> i > 0 && actions[i - 1]
            is CloseSession
}

/// Whatever the input, a dial that the router asks for comes directly after
/// a close.
proof fn lemma_route_closes_before_dial(s: RouterModel, input: RouterInput)
    ensures
        closes_before_dial(route(s, input).1),
{
}

/// Counting over a list that is extended by one action.
proof fn lemma_open_sessions_push(open: nat, actions: Seq<RouterActionModel>, n: int)
    requires
        0 < n <= actions.len(),
    ensures
        open_sessions(open, actions.take(n)) == open_after(
            open_sessions(open, actions.take(n - 1)),
            actions[n - 1],
        ),
{
    assert(actions.take(n).drop_last() =~= actions.take(n - 1));
    assert(actions.take(n).last() == actions[n - 1]);
}

/// Where every dial comes directly after a close, at most one session is
/// ever open, and none is open behind a close.
proof fn lemma_closing_first_keeps_one(open: nat, actions: Seq<RouterActionModel>, n: int)
    requires
        open <= 1,
        closes_before_dial(actions),
        0 <= n <= actions.len(),
    ensures
        open_sessions(open, actions.take(n)) <= 1,
        n > 0 && actions[n - 1] is CloseSession ==> open_sessions(open, actions.take(n)) == 0,
    decreases n,
{
    if n == 0 {
        assert(actions.take(0) =~= Seq::<RouterActionModel>::empty());
    } else {
        lemma_open_sessions_push(open, actions, n);
        lemma_closing_first_keeps_one(open, actions, n - 1);
        if actions[n - 1] is Dial {
            assert(n - 1 > 0 && actions[n - 2] is CloseSession);
        }
    }
}

/// Every dial in the actions of a sequence of inputs comes directly after a
/// close.
proof fn lemma_route_all_closes_before_dial(s: RouterModel, inputs: Seq<RouterInput>)
    ensures
        closes_before_dial(route_all(s, inputs).1),
    decreases inputs.len(),
{
    if inputs.len() > 0 {
        let before = route_all(s, inputs.drop_last());
        let step = route(before.0, inputs.last());
        lemma_route_all_closes_before_dial(s, inputs.drop_last());
        lemma_route_closes_before_dial(before.0, inputs.last());
        let all = before.1 + step.1;
        assert forall|i: int| 0 <= i < all.len() && (#[trigger] all[i]) is Dial implies i > 0
            && all[i - 1] is CloseSession by {
            if i < before.1.len() {
                assert(all[i] == before.1[i]);
                assert(all[i - 1] == before.1[i - 1]);
            } else {
                let j = i - before.1.len();
                assert(all[i] == step.1[j]);
                assert(step.1[j] is Dial);
                assert(j > 0 && step.1[j - 1] is CloseSession);
                assert(all[i - 1] == step.1[j - 1]);
            }
        }
    }
}

/// At most one robot session exists at any instant: whatever requests
/// arrive, in whatever order, the router asks for the session that there is
/// to be closed before it asks for a new one to be dialled, so that at no
/// point of its actions two are open.
pub proof fn lemma_at_most_one_session(s: RouterModel, open: nat, inputs: Seq<RouterInput>)
    requires
        open <= 1,
    ensures
        closes_before_dial(route_all(s, inputs).1),
        never_two(open, route_all(s, inputs).1),
{
    let actions = route_all(s, inputs).1;
    lemma_route_all_closes_before_dial(s, inputs);
    assert forall|n: int| 0 <= n <= actions.len() implies #[trigger] open_sessions(
        open,
        actions.take(n),
    ) <= 1 by {
        lemma_closing_first_keeps_one(open, actions, n);
    }
}

/// Whether an action gives the client more than a status byte: a body, or a
/// channel that stays open.
pub open spec fn beyond_status(action: RouterActionModel) -> bool {
    action is Body || action is Listen
}

/// Whether the status byte leads: whatever goes to the client beyond a
/// status byte comes after a status byte.
pub open spec fn status_leads(actions: Seq<RouterActionModel>) -> bool {
    forall|i: int|
        0 <= i < actions.len() && beyond_status(#[trigger] actions[i]) ==> exists|j: int|
            0 <= j < i && (#[trigger] actions[j]) is Status
}

/// A client sees the status byte of its request before anything else that
/// the request's handler sends it: in the actions that the router asks for
/// on any input, a status byte comes before any body and before the client
/// is handed to a listener.
pub proof fn lemma_status_leads(s: RouterModel, input: RouterInput)
    ensures
        status_leads(route(s, input).1),
{
    let actions = route(s, input).1;
    assert forall|i: int| 0 <= i < actions.len() && beyond_status(#[trigger] actions[i]) implies
        exists|j: int| 0 <= j < i && (#[trigger] actions[j]) is Status by {
        if actions[0] is Status {
            assert(0 <= 0 < i && actions[0] is Status);
        } else {
            assert(actions[1] is Status);
            assert(1 < i);
        }
    }
}

} // verus!
