//! Laws of the transition protocol, proved of the decision functions
//! themselves and therefore of every run — model or mapped region — that
//! performs the actions they return.

use vstd::prelude::*;

use crate::client::ClientAction;
use crate::client::ClientLocal;
use crate::client::client_action_spec;
use crate::server::ServerAction;
use crate::server::ServerLocal;
use crate::server::server_action_spec;
use crate::state::CabinState;
use crate::state::protocol_next;

verus! {

/// Every compare-and-swap the client's dispatch asks for expects exactly the
/// tag it was decided under and moves along the protocol cycle: `Accepting*
/// -> Connecting`, `WaitReq* -> WaitRespSpin`, `WaitReq* -> Disconnected`.
/// State transitions are monotonic within the session's cycle — no client
/// action ever jumps elsewhere.
pub proof fn lemma_client_actions_follow_cycle(cl: ClientLocal, observed: CabinState)
    ensures
        match client_action_spec(cl, observed) {
            ClientAction::Connect { expect, .. } => expect == observed && protocol_next(
                expect,
                CabinState::Connecting,
            ),
            ClientAction::Request { expect, .. } => expect == observed && protocol_next(
                expect,
                CabinState::WaitRespSpin,
            ),
            ClientAction::Disconnect { expect, .. } => expect == observed && protocol_next(
                expect,
                CabinState::Disconnected,
            ),
            _ => true,
        },
{
}

/// Every compare-and-swap the server's dispatch asks for expects exactly the
/// tag it was decided under and moves along the protocol cycle: `Connecting
/// -> WaitReqSpin`, `WaitResp* -> WaitReqSpin`, `Disconnected ->
/// AcceptingSpin`.
pub proof fn lemma_server_actions_follow_cycle(sv: ServerLocal, observed: CabinState)
    ensures
        server_action_spec(sv, observed) is Claim ==> observed is Connecting && protocol_next(
            CabinState::Connecting,
            CabinState::WaitReqSpin,
        ),
        match server_action_spec(sv, observed) {
            ServerAction::Respond { expect, .. } => expect == observed && protocol_next(
                expect,
                CabinState::WaitReqSpin,
            ),
            _ => true,
        },
        server_action_spec(sv, observed) is Recycle ==> observed is Disconnected
            && protocol_next(CabinState::Disconnected, CabinState::AcceptingSpin),
{
}

/// No lost wakeup, the client's half: whenever the client advances the state
/// out of a Yield tag — a tag whose server sleeps on the condition variable —
/// the action it was handed says to take the lock and signal.  Together with
/// the server re-checking the tag under the lock before every wait, a server
/// that entered the blocking wait is always woken once the client advances.
pub proof fn lemma_client_wakes_sleeping_peer(cl: ClientLocal, observed: CabinState)
    requires
        observed.is_yield(),
    ensures
        match client_action_spec(cl, observed) {
            ClientAction::Connect { signal, .. } => signal,
            ClientAction::Request { signal, .. } => signal,
            ClientAction::Disconnect { signal, .. } => signal,
            _ => true,
        },
{
}

/// No lost wakeup, the server's half: whenever the server advances the state
/// out of `WaitRespYield` — the tag whose client sleeps — the action says to
/// take the lock and signal.
pub proof fn lemma_server_wakes_sleeping_peer(sv: ServerLocal, observed: CabinState)
    requires
        observed.is_yield(),
    ensures
        match server_action_spec(sv, observed) {
            ServerAction::Respond { signal, .. } => signal,
            _ => true,
        },
{
}

/// Escalation is reversible: a role blocks only on the one Yield tag of its
/// own wait.  The client's dispatch answers `BlockResp` only to
/// `WaitRespYield`, and the server's answers `BlockAccept`/`BlockReq` only
/// to `AcceptingYield`/`WaitReqYield` — so a role that escalated Spin to
/// Yield but re-reads any other tag is told to proceed, never to wait.
pub proof fn lemma_block_only_on_own_yield_tag(cl: ClientLocal, sv: ServerLocal, observed: CabinState)
    ensures
        client_action_spec(cl, observed) is BlockResp ==> observed is WaitRespYield,
        server_action_spec(sv, observed) is BlockAccept ==> observed is AcceptingYield,
        server_action_spec(sv, observed) is BlockReq ==> observed is WaitReqYield,
{
}

} // verus!
