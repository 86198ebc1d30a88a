//! A complete client/server session, run on the model slot.
//!
//! `run_session` drives the very decision functions the two real role loops
//! use, alternating turns against the in-process slot, and proves the
//! session's end-to-end properties: both checksums equal the sum of the
//! request sequence, every response the client reads equals its running sum,
//! and the slot comes out recycled — idle, accepting, and with nothing of
//! the session left in its cells.

use vstd::prelude::*;

use crate::client::ClientAction;
use crate::client::ClientLocal;
use crate::client::client_check_resp;
use crate::client::client_request_done;
use crate::client::client_step;
use crate::client::lemma_session_sum_mono;
use crate::client::req_value_spec;
use crate::client::session_sum;
use crate::server::ServerAction;
use crate::server::ServerLocal;
use crate::server::SessionStats;
use crate::server::server_absorb;
use crate::server::server_claim;
use crate::server::server_recycle;
use crate::server::server_respond_done;
use crate::server::server_step;
use crate::slot::Cabin;
use crate::state::CabinState;
use crate::waiter::Waiter;
use crate::waiter::should_wait;

verus! {

/// What holds between the slot and the two roles' bookkeeping at every turn
/// boundary of a session.  This is the protocol's "publish-on-transition"
/// discipline made explicit: each tag tells exactly which writes have
/// happened before it — the server never finds `WaitResp*` without the
/// current request standing in the cell, the client never finds `WaitReq*`
/// without the response cell holding its own checksum, and `Connecting`
/// never stands without the client's identifier published.
pub open spec fn session_inv(cabin: Cabin, cl: ClientLocal, sv: ServerLocal, reads: Seq<u64>) -> bool {
    &&& cl.sent <= cl.num
    &&& session_sum(cl.fixed, cl.num as int) <= u64::MAX
    &&& cl.sum == session_sum(cl.fixed, cl.sent as int)
    &&& !cl.req_written
    &&& !sv.resp_written
    &&& (forall|j: int| 0 <= j < reads.len() ==> reads[j] == session_sum(cl.fixed, j + 1))
    &&& match cabin.state {
        CabinState::AcceptingSpin | CabinState::AcceptingYield => {
            &&& cl.sent == 0
            &&& sv.sum == 0
            &&& cabin.resp == 0
            &&& reads.len() == 0
            &&& (cl.id_written ==> cabin.id == cl.client_id)
        },
        CabinState::Connecting => {
            &&& cabin.id == cl.client_id
            &&& cl.id_written
            &&& cl.sent == 0
            &&& sv.sum == 0
            &&& cabin.resp == 0
            &&& reads.len() == 0
        },
        CabinState::WaitReqSpin | CabinState::WaitReqYield => {
            &&& sv.client_id == cl.client_id
            &&& sv.sum == cl.sum
            &&& cabin.resp == cl.sum
            &&& reads.len() == if cl.sent == 0 {
                0int
            } else {
                cl.sent - 1
            }
        },
        CabinState::WaitRespSpin | CabinState::WaitRespYield => {
            &&& 1 <= cl.sent
            &&& sv.client_id == cl.client_id
            &&& cabin.req == req_value_spec(cl.fixed, cl.sent - 1)
            &&& sv.sum == session_sum(cl.fixed, cl.sent - 1)
            &&& cabin.resp == sv.sum
            &&& reads.len() == cl.sent - 1
        },
        CabinState::Disconnected => {
            &&& cl.sent == cl.num
            &&& sv.client_id == cl.client_id
            &&& sv.sum == cl.sum
            &&& reads.len() == cl.num as int
        },
    }
}

/// How many turns a session still takes from a given tag: the bound that
/// shows a session always completes when both roles keep reacting.
pub open spec fn session_steps(state: CabinState, sent: int, num: int) -> int {
    match state {
        CabinState::AcceptingSpin | CabinState::AcceptingYield => 2 * num + 5,
        CabinState::Connecting => 2 * num + 4,
        CabinState::WaitReqSpin | CabinState::WaitReqYield => if sent >= num {
            2
        } else {
            2 * (num - sent) + 2
        },
        CabinState::WaitRespSpin | CabinState::WaitRespYield => 2 * (num - sent) + 3,
        CabinState::Disconnected => 1,
    }
}

/// Run one whole session of `num` exchanges against the slot: the client
/// connects under `client_id`, both roles react turn by turn until the
/// client disconnects and the server recycles the slot.
///
/// The result carries the client's checksum, the server's session stats and
/// the responses the client read, and the contract states the session
/// properties:
/// - both sides sum the request sequence identically, whatever the quota;
/// - with the response cell consumed every round, each of the `num` reads
///   equals the running sum of the requests so far;
/// - the slot is recycled: accepting again, identifier and response cells
///   zeroed, so a following session starts from exactly the state this one
///   found.
pub fn run_session(cabin: &mut Cabin, client_id: u32, num: u32, fixed: Option<u64>) -> (r: (
    u64,
    SessionStats,
    Vec<u64>,
))
    requires
        old(cabin).state is AcceptingSpin || old(cabin).state is AcceptingYield,
        old(cabin).resp == 0,
        session_sum(fixed, num as int) <= u64::MAX,
    ensures
        r.0 == session_sum(fixed, num as int),
        r.1.sum == r.0,
        r.1.client_id == client_id,
        r.1.yields == 0,
        r.2@.len() == num as int,
        forall|k: int| 0 <= k < num as int ==> r.2@[k] == session_sum(fixed, k + 1),
        final(cabin).state is AcceptingSpin,
        final(cabin).id == 0,
        final(cabin).resp == 0,
{
    let mut cl = ClientLocal::new(client_id, num, fixed, true);
    let mut sv = ServerLocal::new(true);
    let mut reads: Vec<u64> = Vec::new();
    loop
        invariant
            session_inv(*cabin, cl, sv, reads@),
            cl.client_id == client_id,
            cl.num == num,
            cl.fixed == fixed,
            cl.yields == 0,
            sv.yields == 0,
        decreases session_steps(cabin.state, cl.sent as int, num as int),
    {
        let s = cabin.load_state();
        match s {
            CabinState::Disconnected => {
                let stats = server_recycle(&mut sv);
                cabin.set_id(0);
                cabin.set_resp(0);
                let _ = cabin.cas_state(CabinState::Disconnected, CabinState::AcceptingSpin);
                return (cl.sum, stats, reads);
            }
            CabinState::AcceptingSpin
            | CabinState::AcceptingYield
            | CabinState::WaitReqSpin
            | CabinState::WaitReqYield => {
                // the client's turn
                if s == CabinState::WaitReqSpin || s == CabinState::WaitReqYield {
                    let resp = cabin.resp();
                    let ok = client_check_resp(&cl, resp);
                    assert(ok);
                    if cl.sent > 0 {
                        reads.push(resp);
                    }
                }
                proof {
                    if cl.sent < cl.num {
                        lemma_session_sum_mono(fixed, cl.sent + 1, num as int);
                    }
                }
                let a = client_step(&mut cl, s);
                match a {
                    ClientAction::Connect { expect, write_id, signal: _ } => {
                        if write_id {
                            cabin.set_id(cl.client_id);
                        }
                        let _ = cabin.cas_state(expect, CabinState::Connecting);
                    }
                    ClientAction::Request { expect, write_req, value, signal: _ } => {
                        if write_req {
                            cabin.set_req(value);
                        }
                        let won = cabin.cas_state(expect, CabinState::WaitRespSpin).is_ok();
                        client_request_done(&mut cl, won);
                    }
                    ClientAction::Disconnect { expect, signal: _ } => {
                        let _ = cabin.cas_state(expect, CabinState::Disconnected);
                    }
                    _ => {
                        proof {
                            assert(false);
                        }
                    }
                }
            }
            _ => {
                // Connecting or WaitResp*: the server's turn
                let a = server_step(&mut sv, s);
                match a {
                    ServerAction::Claim => {
                        let id = cabin.id();
                        server_claim(&mut sv, id);
                        let _ = cabin.cas_state(CabinState::Connecting, CabinState::WaitReqSpin);
                    }
                    ServerAction::Respond { expect, write_resp, signal: _ } => {
                        proof {
                            lemma_session_sum_mono(fixed, cl.sent as int, num as int);
                        }
                        if write_resp {
                            let req = cabin.req();
                            let resp = server_absorb(&mut sv, req);
                            cabin.set_resp(resp);
                        }
                        let won = cabin.cas_state(expect, CabinState::WaitReqSpin).is_ok();
                        server_respond_done(&mut sv, won);
                    }
                    _ => {
                        proof {
                            assert(false);
                        }
                    }
                }
            }
        }
    }
}

/// Run one whole session under the adversarial schedule in which every wait
/// saturates: each role escalates its Spin tag before the peer's advancing
/// swap lands, every such swap therefore loses once and is re-dispatched,
/// both roles genuinely block each round, and every advance out of a Yield
/// tag signals.  The escalated work is never repeated — the request and
/// response cells are written and summed exactly once per exchange — and the
/// checksums, the recycle and the block counts all come out exact.
pub fn run_session_yielding(cabin: &mut Cabin, client_id: u32, num: u32, fixed: Option<u64>) -> (r:
    (u64, u64, SessionStats))
    requires
        old(cabin).state is AcceptingSpin,
        old(cabin).resp == 0,
        session_sum(fixed, num as int) <= u64::MAX,
    ensures
        r.0 == session_sum(fixed, num as int),
        r.2.sum == r.0,
        r.2.client_id == client_id,
        r.1 == num,
        r.2.yields == num + 2,
        final(cabin).state is AcceptingSpin,
        final(cabin).id == 0,
        final(cabin).resp == 0,
{
    let mut cl = ClientLocal::new(client_id, num, fixed, false);
    let mut sv = ServerLocal::new(false);

    // The idle server's accept wait saturates at once: it escalates and
    // blocks.
    let s = cabin.load_state();
    let mut accept_wait = Waiter::new(false, 0);
    let v = accept_wait.poll(s, CabinState::AcceptingSpin);
    assert(v is Escalate);
    let _ = cabin.cas_state(CabinState::AcceptingSpin, CabinState::AcceptingYield);
    let s = cabin.load_state();
    let a = server_step(&mut sv, s);
    assert(a is BlockAccept);

    // The client arrives, publishes its identifier, and wakes the server.
    let s = cabin.load_state();
    let a = client_step(&mut cl, s);
    match a {
        ClientAction::Connect { expect, write_id, signal } => {
            assert(write_id && signal);
            cabin.set_id(cl.client_id);
            let _ = cabin.cas_state(expect, CabinState::Connecting);
        }
        _ => {
            proof {
                assert(false);
            }
        }
    }

    // The woken server re-checks under the lock — the tag moved, so it
    // proceeds — and claims the client.
    let woken = should_wait(cabin.load_state(), CabinState::AcceptingYield);
    assert(!woken);
    let s = cabin.load_state();
    let a = server_step(&mut sv, s);
    match a {
        ServerAction::Claim => {
            let id = cabin.id();
            server_claim(&mut sv, id);
            let _ = cabin.cas_state(CabinState::Connecting, CabinState::WaitReqSpin);
        }
        _ => {
            proof {
                assert(false);
            }
        }
    }

    while cl.sent < num
        invariant
            cl.client_id == client_id,
            cl.num == num,
            cl.fixed == fixed,
            cabin.state is WaitReqSpin,
            cl.sent <= num,
            cl.sum == session_sum(fixed, cl.sent as int),
            !cl.req_written,
            !sv.resp_written,
            sv.sum == cl.sum,
            sv.client_id == client_id,
            cabin.resp == cl.sum,
            session_sum(fixed, num as int) <= u64::MAX,
            cl.yields == cl.sent,
            sv.yields == cl.sent + 1,
        decreases num - cl.sent,
    {
        // The client validates the response cell before working.
        let resp = cabin.resp();
        let ok = client_check_resp(&cl, resp);
        assert(ok);
        proof {
            lemma_session_sum_mono(fixed, cl.sent + 1, num as int);
        }
        // The client accounts its request and writes the cell ...
        let s = cabin.load_state();
        let a = client_step(&mut cl, s);
        match a {
            ClientAction::Request { expect, write_req, value, signal: _ } => {
                assert(write_req);
                cabin.set_req(value);
                // ... but before its swap lands, the server's request wait
                // saturates and escalates ...
                let s2 = cabin.load_state();
                let mut req_wait = Waiter::new(false, 0);
                let v = req_wait.poll(s2, CabinState::WaitReqSpin);
                assert(v is Escalate);
                let _ = cabin.cas_state(CabinState::WaitReqSpin, CabinState::WaitReqYield);
                // ... so the client's swap loses: not an error, the written
                // request stays accounted exactly once.
                let won = cabin.cas_state(expect, CabinState::WaitRespSpin).is_ok();
                client_request_done(&mut cl, won);
                assert(!won && cl.req_written);
            }
            _ => {
                proof {
                    assert(false);
                }
            }
        }
        // The server blocks on its escalated wait.
        let s = cabin.load_state();
        let a = server_step(&mut sv, s);
        assert(a is BlockReq);
        // The client re-dispatches: the request already stands, so it only
        // advances the tag and wakes the server.
        let s = cabin.load_state();
        let a = client_step(&mut cl, s);
        match a {
            ClientAction::Request { expect, write_req, value: _, signal } => {
                assert(!write_req && signal);
                let won = cabin.cas_state(expect, CabinState::WaitRespSpin).is_ok();
                client_request_done(&mut cl, won);
            }
            _ => {
                proof {
                    assert(false);
                }
            }
        }
        // The woken server re-checks under the lock and proceeds.
        let woken = should_wait(cabin.load_state(), CabinState::WaitReqYield);
        assert(!woken);
        // The server consumes the request and writes its answer ...
        let s = cabin.load_state();
        let a = server_step(&mut sv, s);
        match a {
            ServerAction::Respond { expect, write_resp, signal: _ } => {
                assert(write_resp);
                let req = cabin.req();
                let resp = server_absorb(&mut sv, req);
                cabin.set_resp(resp);
                // ... but before its swap lands, the client's response wait
                // saturates and escalates ...
                let s2 = cabin.load_state();
                let mut resp_wait = Waiter::new(false, 0);
                let v = resp_wait.poll(s2, CabinState::WaitRespSpin);
                assert(v is Escalate);
                let _ = cabin.cas_state(CabinState::WaitRespSpin, CabinState::WaitRespYield);
                // ... so the server's swap loses and the answer stays summed
                // exactly once.
                let won = cabin.cas_state(expect, CabinState::WaitReqSpin).is_ok();
                server_respond_done(&mut sv, won);
                assert(!won && sv.resp_written);
            }
            _ => {
                proof {
                    assert(false);
                }
            }
        }
        // The client blocks on its escalated wait.
        let s = cabin.load_state();
        let a = client_step(&mut cl, s);
        assert(a is BlockResp);
        // The server re-dispatches: the answer already stands, so it only
        // advances the tag and wakes the client.
        let s = cabin.load_state();
        let a = server_step(&mut sv, s);
        match a {
            ServerAction::Respond { expect, write_resp, signal } => {
                assert(!write_resp && signal);
                let won = cabin.cas_state(expect, CabinState::WaitReqSpin).is_ok();
                server_respond_done(&mut sv, won);
            }
            _ => {
                proof {
                    assert(false);
                }
            }
        }
        // The woken client re-checks under the lock and proceeds.
        let woken = should_wait(cabin.load_state(), CabinState::WaitRespYield);
        assert(!woken);
    }

    // The quota is spent: one more response check, then the client leaves.
    let resp = cabin.resp();
    let ok = client_check_resp(&cl, resp);
    assert(ok);
    let s = cabin.load_state();
    let a = client_step(&mut cl, s);
    match a {
        ClientAction::Disconnect { expect, signal: _ } => {
            // The server's request wait saturates first, so the parting swap
            // loses once too.
            let s2 = cabin.load_state();
            let mut req_wait = Waiter::new(false, 0);
            let v = req_wait.poll(s2, CabinState::WaitReqSpin);
            assert(v is Escalate);
            let _ = cabin.cas_state(CabinState::WaitReqSpin, CabinState::WaitReqYield);
            let won = cabin.cas_state(expect, CabinState::Disconnected).is_ok();
            assert(!won);
        }
        _ => {
            proof {
                assert(false);
            }
        }
    }
    // The server blocks; the client re-dispatches and leaves with a signal.
    let s = cabin.load_state();
    let a = server_step(&mut sv, s);
    assert(a is BlockReq);
    let s = cabin.load_state();
    let a = client_step(&mut cl, s);
    match a {
        ClientAction::Disconnect { expect, signal } => {
            assert(signal);
            let _ = cabin.cas_state(expect, CabinState::Disconnected);
        }
        _ => {
            proof {
                assert(false);
            }
        }
    }
    // The woken server finds the session over and recycles the slot.
    let woken = should_wait(cabin.load_state(), CabinState::WaitReqYield);
    assert(!woken);
    let s = cabin.load_state();
    let a = server_step(&mut sv, s);
    assert(a is Recycle);
    let stats = server_recycle(&mut sv);
    cabin.set_id(0);
    cabin.set_resp(0);
    let _ = cabin.cas_state(CabinState::Disconnected, CabinState::AcceptingSpin);
    (cl.sum, cl.yields, stats)
}

} // verus!
