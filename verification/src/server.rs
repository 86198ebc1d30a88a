//! The server role: its per-session bookkeeping and the decision step of its
//! control loop.
//!
//! The server loops forever, one session after another: it waits for a
//! connect, claims the client, answers each request with the running
//! checksum, and on disconnect reports the session and recycles the slot.

use vstd::prelude::*;

use crate::state::CabinState;

verus! {

/// The server role's local bookkeeping; reset on every recycle.
#[derive(Debug, Clone, Copy, PartialEq, Eq, Structural)]
pub struct ServerLocal {
    /// The identifier the connected client published, diagnostic only.
    pub client_id: u32,
    /// The running checksum of the requests consumed this session.
    pub sum: u64,
    /// Whether the current response already stands in the slot: set when a
    /// request is consumed, cleared when the publishing swap wins.  It keeps
    /// a request from being consumed and summed twice when the swap loses to
    /// the client's escalation.
    pub resp_written: bool,
    /// Diagnostic count of genuine blocking waits; saturates rather than
    /// wrap.
    pub yields: u64,
    /// When set, the role never escalates a busy-wait into a blocking one.
    pub spin_only: bool,
}

/// What the server must now do against the slot.
#[derive(Debug, Clone, Copy, PartialEq, Eq, Structural)]
pub enum ServerAction {
    /// Idle: wait adaptively on `AcceptingSpin` for a connect.
    AwaitAccept,
    /// The role escalated its accept wait: sleep on the condition variable
    /// while the tag stays `AcceptingYield`.
    BlockAccept,
    /// A client published its identifier: read it, hand it to
    /// `server_claim`, then swap `Connecting` to `WaitReqSpin`.
    Claim,
    /// Wait adaptively on `WaitReqSpin` for the next request.
    AwaitReq,
    /// The role escalated its request wait: sleep while the tag stays
    /// `WaitReqYield`.
    BlockReq,
    /// A request is published.  If `write_resp`, read the request cell, hand
    /// it to `server_absorb` and write the returned checksum into the
    /// response cell; then swap `expect` to `WaitReqSpin`, under the lock
    /// and with a signal if `signal`.  Report the swap's outcome through
    /// `server_respond_done`.
    Respond { expect: CabinState, write_resp: bool, signal: bool },
    /// The session ended: take the stats with `server_recycle`, zero the
    /// identifier and response cells, and swap `Disconnected` to
    /// `AcceptingSpin`.
    Recycle,
}

/// The action `server_step` returns for each observed tag.
pub open spec fn server_action_spec(sv: ServerLocal, observed: CabinState) -> ServerAction {
    match observed {
        CabinState::AcceptingSpin => ServerAction::AwaitAccept,
        CabinState::AcceptingYield => ServerAction::BlockAccept,
        CabinState::Connecting => ServerAction::Claim,
        CabinState::WaitReqSpin => ServerAction::AwaitReq,
        CabinState::WaitReqYield => ServerAction::BlockReq,
        CabinState::WaitRespSpin => ServerAction::Respond {
            expect: CabinState::WaitRespSpin,
            write_resp: true,
            signal: false,
        },
        CabinState::WaitRespYield => ServerAction::Respond {
            expect: CabinState::WaitRespYield,
            write_resp: !sv.resp_written,
            signal: true,
        },
        CabinState::Disconnected => ServerAction::Recycle,
    }
}

/// The bookkeeping `server_step` leaves behind: a genuine block is counted,
/// nothing else moves here.
pub open spec fn server_local_after(sv: ServerLocal, observed: CabinState) -> ServerLocal {
    match observed {
        CabinState::AcceptingYield | CabinState::WaitReqYield => ServerLocal {
            yields: if sv.yields < u64::MAX {
                (sv.yields + 1) as u64
            } else {
                sv.yields
            },
            ..sv
        },
        _ => sv,
    }
}

/// What the server reports when a session ends.
#[derive(Debug, Clone, Copy, PartialEq, Eq, Structural)]
pub struct SessionStats {
    /// The identifier the session's client published.
    pub client_id: u32,
    /// The server-side checksum of every request of the session.
    pub sum: u64,
    /// How many times the server genuinely blocked during the session.
    pub yields: u64,
}

impl ServerLocal {
    /// Fresh bookkeeping, as the server starts and as every recycle leaves
    /// it.
    pub fn new(spin_only: bool) -> (s: ServerLocal)
        ensures
            s == (ServerLocal {
                client_id: 0,
                sum: 0,
                resp_written: false,
                yields: 0,
                spin_only,
            }),
    {
        ServerLocal { client_id: 0, sum: 0, resp_written: false, yields: 0, spin_only }
    }
}

/// One step of the server's dispatch: reacts to the observed tag as the
/// protocol demands and says what to perform against the slot.
pub fn server_step(sv: &mut ServerLocal, observed: CabinState) -> (a: ServerAction)
    ensures
        *final(sv) == server_local_after(*old(sv), observed),
        a == server_action_spec(*old(sv), observed),
{
    match observed {
        CabinState::AcceptingSpin => ServerAction::AwaitAccept,
        CabinState::AcceptingYield => {
            if sv.yields < u64::MAX {
                sv.yields = sv.yields + 1;
            }
            ServerAction::BlockAccept
        }
        CabinState::Connecting => ServerAction::Claim,
        CabinState::WaitReqSpin => ServerAction::AwaitReq,
        CabinState::WaitReqYield => {
            if sv.yields < u64::MAX {
                sv.yields = sv.yields + 1;
            }
            ServerAction::BlockReq
        }
        CabinState::WaitRespSpin => ServerAction::Respond {
            expect: CabinState::WaitRespSpin,
            write_resp: true,
            signal: false,
        },
        CabinState::WaitRespYield => ServerAction::Respond {
            expect: CabinState::WaitRespYield,
            write_resp: !sv.resp_written,
            signal: true,
        },
        CabinState::Disconnected => ServerAction::Recycle,
    }
}

/// Record the identifier read from the slot while claiming a connect.
pub fn server_claim(sv: &mut ServerLocal, id: u32)
    ensures
        *final(sv) == (ServerLocal { client_id: id, ..*old(sv) }),
{
    sv.client_id = id;
}

/// Consume one request value: fold it into the running checksum (wrapping,
/// as a checksum over untrusted cells must) and return the response to
/// publish, which is the new checksum itself.
pub fn server_absorb(sv: &mut ServerLocal, req: u64) -> (resp: u64)
    ensures
        *final(sv) == (ServerLocal {
            sum: vstd::wrapping::u64_specs::wrapping_add(old(sv).sum, req),
            resp_written: true,
            ..*old(sv)
        }),
        resp == final(sv).sum,
{
    sv.sum = sv.sum.wrapping_add(req);
    sv.resp_written = true;
    sv.sum
}

/// Report the outcome of a `Respond` action's compare-and-swap: a winning
/// swap hands the response cell back for the next request; a losing one
/// means the client escalated first, and the response must not be computed
/// again.
pub fn server_respond_done(sv: &mut ServerLocal, won: bool)
    ensures
        *final(sv) == (ServerLocal { resp_written: old(sv).resp_written && !won, ..*old(sv) }),
{
    if won {
        sv.resp_written = false;
    }
}

/// End the session: hand out its stats and reset every per-session counter,
/// ready for the next client.
pub fn server_recycle(sv: &mut ServerLocal) -> (stats: SessionStats)
    ensures
        stats == (SessionStats {
            client_id: old(sv).client_id,
            sum: old(sv).sum,
            yields: old(sv).yields,
        }),
        *final(sv) == (ServerLocal {
            client_id: 0,
            sum: 0,
            resp_written: false,
            yields: 0,
            spin_only: old(sv).spin_only,
        }),
{
    let stats = SessionStats { client_id: sv.client_id, sum: sv.sum, yields: sv.yields };
    sv.client_id = 0;
    sv.sum = 0;
    sv.resp_written = false;
    sv.yields = 0;
    stats
}

} // verus!
