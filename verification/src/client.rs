//! The client role: its per-session bookkeeping and the decision step of its
//! control loop.
//!
//! The loop is a dispatch over the observed state tag.  `client_step` takes
//! one observation, updates the bookkeeping, and returns the action the role
//! must now perform against the slot.  The caller — the session model in this
//! crate, or the embedding program against the mapped region — performs the
//! action and feeds the next observation back in.

use vstd::prelude::*;

use crate::state::CabinState;

verus! {

/// The request value of iteration `k`: either a fixed repeated value, or the
/// iteration counter itself.
pub open spec fn req_value_spec(fixed: Option<u64>, k: int) -> u64 {
    match fixed {
        Some(v) => v,
        None => k as u64,
    }
}

/// The sum of the first `n` request values: what both roles' checksums must
/// come to after a completed session of `n` exchanges.
pub open spec fn session_sum(fixed: Option<u64>, n: int) -> int
    decreases n,
{
    if n <= 0 {
        0
    } else {
        session_sum(fixed, n - 1) + req_value_spec(fixed, n - 1)
    }
}

/// Partial sums of the request sequence never shrink.
pub proof fn lemma_session_sum_mono(fixed: Option<u64>, m: int, n: int)
    requires
        m <= n,
    ensures
        session_sum(fixed, m) <= session_sum(fixed, n),
    decreases n - m,
{
    if m < n {
        lemma_session_sum_mono(fixed, m, n - 1);
    }
}

/// A session of `n` exchanges with a fixed request value `v` sums to `v * n`.
pub proof fn lemma_session_sum_fixed(v: u64, n: int)
    requires
        n >= 0,
    ensures
        session_sum(Some(v), n) == v * n,
    decreases n,
{
    if n == 0 {
        assert(v * n == 0) by (nonlinear_arith)
            requires
                n == 0,
        ;
    } else {
        lemma_session_sum_fixed(v, n - 1);
        assert(session_sum(Some(v), n) == session_sum(Some(v), n - 1) + v);
        assert(v * (n - 1) + v == v * n) by (nonlinear_arith);
    }
}

/// The request value of iteration `k`.
pub fn req_value(fixed: Option<u64>, k: u32) -> (r: u64)
    ensures
        r == req_value_spec(fixed, k as int),
{
    match fixed {
        Some(v) => v,
        None => k as u64,
    }
}

/// The client role's local bookkeeping for one session.
#[derive(Debug, Clone, Copy, PartialEq, Eq, Structural)]
pub struct ClientLocal {
    /// The identifier this client publishes at connect time.
    pub client_id: u32,
    /// The request quota: how many exchanges this session performs.
    pub num: u32,
    /// Fixed request value, or counter mode when absent.
    pub fixed: Option<u64>,
    /// How many requests have been accounted so far.
    pub sent: u32,
    /// The locally accumulated checksum of the accounted requests.
    pub sum: u64,
    /// Whether the identifier already stands in the slot.
    pub id_written: bool,
    /// Whether the current request already stands in the slot: set when a
    /// request is accounted, cleared when its publishing swap wins.  It keeps
    /// a request from being written and summed twice when the swap loses to
    /// the server's escalation.
    pub req_written: bool,
    /// Diagnostic count of genuine blocking waits; saturates rather than
    /// wrap.
    pub yields: u64,
    /// When set, the role never escalates a busy-wait into a blocking one.
    pub spin_only: bool,
}

/// What the client must now do against the slot.  `expect` is always the tag
/// the decision was made under, and `signal` is set exactly when that tag is
/// a Yield tag, whose sleeping peer the advancing swap must wake.
#[derive(Debug, Clone, Copy, PartialEq, Eq, Structural)]
pub enum ClientAction {
    /// Write the identifier if `write_id`, then swap `expect` to
    /// `Connecting`; under the lock and with a signal if `signal`.
    Connect { expect: CabinState, write_id: bool, signal: bool },
    /// Only the server leaves `Connecting`: busy-wait until the tag moves.
    HoldConnecting,
    /// Write `value` into the request cell if `write_req`, then swap `expect`
    /// to `WaitRespSpin`; under the lock and with a signal if `signal`.
    /// Report the swap's outcome through `client_request_done`.
    Request { expect: CabinState, write_req: bool, value: u64, signal: bool },
    /// Quota exhausted: swap `expect` to `Disconnected`; under the lock and
    /// with a signal if `signal`.
    Disconnect { expect: CabinState, signal: bool },
    /// Wait adaptively on `WaitRespSpin` for the server's response.
    AwaitResp,
    /// The role escalated: sleep on the condition variable while the tag
    /// stays `WaitRespYield`.
    BlockResp,
    /// The session is over; leave the loop.
    Stop,
}

/// The action `client_step` returns for each observed tag.
pub open spec fn client_action_spec(cl: ClientLocal, observed: CabinState) -> ClientAction {
    match observed {
        CabinState::AcceptingSpin => ClientAction::Connect {
            expect: CabinState::AcceptingSpin,
            write_id: true,
            signal: false,
        },
        CabinState::AcceptingYield => ClientAction::Connect {
            expect: CabinState::AcceptingYield,
            write_id: !cl.id_written,
            signal: true,
        },
        CabinState::Connecting => ClientAction::HoldConnecting,
        CabinState::WaitReqSpin => if cl.sent >= cl.num {
            ClientAction::Disconnect { expect: CabinState::WaitReqSpin, signal: false }
        } else {
            ClientAction::Request {
                expect: CabinState::WaitReqSpin,
                write_req: true,
                value: req_value_spec(cl.fixed, cl.sent as int),
                signal: false,
            }
        },
        CabinState::WaitReqYield => if cl.req_written {
            // a request is accounted but not yet delivered: its swap lost to
            // the server's escalation, so deliver it before anything else —
            // disconnecting here would lose it
            ClientAction::Request {
                expect: CabinState::WaitReqYield,
                write_req: false,
                value: req_value_spec(cl.fixed, cl.sent - 1),
                signal: true,
            }
        } else if cl.sent >= cl.num {
            ClientAction::Disconnect { expect: CabinState::WaitReqYield, signal: true }
        } else {
            ClientAction::Request {
                expect: CabinState::WaitReqYield,
                write_req: true,
                value: req_value_spec(cl.fixed, cl.sent as int),
                signal: true,
            }
        },
        CabinState::WaitRespSpin => ClientAction::AwaitResp,
        CabinState::WaitRespYield => ClientAction::BlockResp,
        CabinState::Disconnected => ClientAction::Stop,
    }
}

/// The bookkeeping `client_step` leaves behind for each observed tag.
pub open spec fn client_local_after(cl: ClientLocal, observed: CabinState) -> ClientLocal {
    match observed {
        CabinState::AcceptingSpin => ClientLocal { id_written: true, ..cl },
        CabinState::AcceptingYield => ClientLocal { id_written: true, ..cl },
        CabinState::WaitReqSpin => if cl.sent >= cl.num {
            cl
        } else {
            ClientLocal {
                sum: (cl.sum + req_value_spec(cl.fixed, cl.sent as int)) as u64,
                sent: (cl.sent + 1) as u32,
                req_written: true,
                ..cl
            }
        },
        CabinState::WaitReqYield => if cl.req_written || cl.sent >= cl.num {
            cl
        } else {
            ClientLocal {
                sum: (cl.sum + req_value_spec(cl.fixed, cl.sent as int)) as u64,
                sent: (cl.sent + 1) as u32,
                req_written: true,
                ..cl
            }
        },
        CabinState::WaitRespYield => ClientLocal {
            yields: if cl.yields < u64::MAX {
                (cl.yields + 1) as u64
            } else {
                cl.yields
            },
            ..cl
        },
        _ => cl,
    }
}

impl ClientLocal {
    /// Fresh bookkeeping for a session of `num` exchanges.
    pub fn new(client_id: u32, num: u32, fixed: Option<u64>, spin_only: bool) -> (c: ClientLocal)
        ensures
            c == (ClientLocal {
                client_id,
                num,
                fixed,
                sent: 0,
                sum: 0,
                id_written: false,
                req_written: false,
                yields: 0,
                spin_only,
            }),
    {
        ClientLocal {
            client_id,
            num,
            fixed,
            sent: 0,
            sum: 0,
            id_written: false,
            req_written: false,
            yields: 0,
            spin_only,
        }
    }

    /// Whether accounting the next request stays within the checksum's range:
    /// the one machine limit the role's arithmetic needs.
    pub open spec fn can_account(self) -> bool {
        self.sum + req_value_spec(self.fixed, self.sent as int) <= u64::MAX
    }
}

/// One step of the client's dispatch: reacts to the observed tag as the
/// protocol demands and says what to perform against the slot.
pub fn client_step(cl: &mut ClientLocal, observed: CabinState) -> (a: ClientAction)
    requires
        (observed is WaitReqSpin || (observed is WaitReqYield && !old(cl).req_written))
            && old(cl).sent < old(cl).num ==> old(cl).can_account(),
        observed is WaitReqYield && old(cl).req_written ==> old(cl).sent >= 1,
    ensures
        *final(cl) == client_local_after(*old(cl), observed),
        a == client_action_spec(*old(cl), observed),
{
    match observed {
        CabinState::AcceptingSpin => {
            cl.id_written = true;
            ClientAction::Connect { expect: CabinState::AcceptingSpin, write_id: true, signal: false }
        }
        CabinState::AcceptingYield => {
            let write_id = !cl.id_written;
            cl.id_written = true;
            ClientAction::Connect { expect: CabinState::AcceptingYield, write_id, signal: true }
        }
        CabinState::Connecting => ClientAction::HoldConnecting,
        CabinState::WaitReqSpin => {
            if cl.sent >= cl.num {
                ClientAction::Disconnect { expect: CabinState::WaitReqSpin, signal: false }
            } else {
                let value = req_value(cl.fixed, cl.sent);
                cl.sum = cl.sum + value;
                cl.sent = cl.sent + 1;
                cl.req_written = true;
                ClientAction::Request {
                    expect: CabinState::WaitReqSpin,
                    write_req: true,
                    value,
                    signal: false,
                }
            }
        }
        CabinState::WaitReqYield => {
            if cl.req_written {
                let value = req_value(cl.fixed, cl.sent - 1);
                ClientAction::Request {
                    expect: CabinState::WaitReqYield,
                    write_req: false,
                    value,
                    signal: true,
                }
            } else if cl.sent >= cl.num {
                ClientAction::Disconnect { expect: CabinState::WaitReqYield, signal: true }
            } else {
                let value = req_value(cl.fixed, cl.sent);
                cl.sum = cl.sum + value;
                cl.sent = cl.sent + 1;
                cl.req_written = true;
                ClientAction::Request {
                    expect: CabinState::WaitReqYield,
                    write_req: true,
                    value,
                    signal: true,
                }
            }
        }
        CabinState::WaitRespSpin => ClientAction::AwaitResp,
        CabinState::WaitRespYield => {
            if cl.yields < u64::MAX {
                cl.yields = cl.yields + 1;
            }
            ClientAction::BlockResp
        }
        CabinState::Disconnected => ClientAction::Stop,
    }
}

/// Report the outcome of a `Request` action's compare-and-swap: a winning
/// swap hands the request cell back to this role for the next iteration; a
/// losing one means the server escalated first, and the written request must
/// not be written or summed again.
pub fn client_request_done(cl: &mut ClientLocal, won: bool)
    ensures
        *final(cl) == (ClientLocal { req_written: old(cl).req_written && !won, ..*old(cl) }),
{
    if won {
        cl.req_written = false;
    }
}

/// The defensive check the client makes on each response it reads: the
/// server's published checksum must equal the client's own.
pub fn client_check_resp(cl: &ClientLocal, resp: u64) -> (ok: bool)
    ensures
        ok <==> resp == cl.sum,
{
    resp == cl.sum
}

} // verus!
