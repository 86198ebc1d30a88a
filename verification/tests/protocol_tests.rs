//! The protocol pieces one at a time: the state tag, the slot operations,
//! the role dispatches and the adaptive waiter.

use benchshm::client::ClientAction;
use benchshm::client::ClientLocal;
use benchshm::client::client_check_resp;
use benchshm::client::client_request_done;
use benchshm::client::client_step;
use benchshm::client::req_value;
use benchshm::server::ServerAction;
use benchshm::server::ServerLocal;
use benchshm::server::server_absorb;
use benchshm::server::server_claim;
use benchshm::server::server_recycle;
use benchshm::server::server_respond_done;
use benchshm::server::server_step;
use benchshm::slot::Cabin;
use benchshm::state::CabinState;
use benchshm::waiter::WaitVerdict;
use benchshm::waiter::Waiter;
use benchshm::waiter::should_wait;
use benchshm::waiter::yield_tag;

#[test]
fn state_codes_round_trip() {
    let all = [
        CabinState::AcceptingSpin,
        CabinState::AcceptingYield,
        CabinState::Connecting,
        CabinState::WaitReqSpin,
        CabinState::WaitReqYield,
        CabinState::WaitRespSpin,
        CabinState::WaitRespYield,
        CabinState::Disconnected,
    ];
    for (i, s) in all.iter().enumerate() {
        assert_eq!(s.code(), i as u8);
        assert_eq!(CabinState::from(s.code()), *s);
    }
}

#[test]
fn state_decoding_clamps_unknown_bytes() {
    assert_eq!(CabinState::from(7), CabinState::Disconnected);
    assert_eq!(CabinState::from(8), CabinState::Disconnected);
    assert_eq!(CabinState::from(200), CabinState::Disconnected);
}

#[test]
fn cas_semantics() {
    let mut cabin = Cabin::new();
    assert_eq!(cabin.load_state(), CabinState::AcceptingSpin);
    // a swap against the wrong tag fails and reports what it found
    let lost = cabin.cas_state(CabinState::Connecting, CabinState::WaitReqSpin);
    assert_eq!(lost, Err(CabinState::AcceptingSpin));
    assert_eq!(cabin.load_state(), CabinState::AcceptingSpin);
    // a swap against the right tag advances and reports what it replaced
    let won = cabin.cas_state(CabinState::AcceptingSpin, CabinState::Connecting);
    assert_eq!(won, Ok(CabinState::AcceptingSpin));
    assert_eq!(cabin.load_state(), CabinState::Connecting);
}

#[test]
fn slot_cells_hold_values() {
    let mut cabin = Cabin::new();
    cabin.set_id(77);
    cabin.set_req(123);
    cabin.set_resp(456);
    assert_eq!(cabin.id(), 77);
    assert_eq!(cabin.req(), 123);
    assert_eq!(cabin.resp(), 456);
    // the state swap leaves the cells alone
    let _ = cabin.cas_state(CabinState::AcceptingSpin, CabinState::Connecting);
    assert_eq!(cabin.id(), 77);
    assert_eq!(cabin.req(), 123);
    assert_eq!(cabin.resp(), 456);
}

#[test]
fn client_connects_and_publishes_id() {
    let mut cl = ClientLocal::new(33, 2, Some(5), false);
    let a = client_step(&mut cl, CabinState::AcceptingSpin);
    assert!(matches!(
        a,
        ClientAction::Connect { expect: CabinState::AcceptingSpin, write_id: true, signal: false }
    ));
    assert!(cl.id_written);
    // once written, a connect from the escalated tag signals and does not
    // rewrite
    let a = client_step(&mut cl, CabinState::AcceptingYield);
    assert!(matches!(
        a,
        ClientAction::Connect { expect: CabinState::AcceptingYield, write_id: false, signal: true }
    ));
}

#[test]
fn client_requests_and_accounts_once() {
    let mut cl = ClientLocal::new(1, 3, None, false);
    // first request in counter mode carries 0
    let a = client_step(&mut cl, CabinState::WaitReqSpin);
    assert!(matches!(
        a,
        ClientAction::Request {
            expect: CabinState::WaitReqSpin,
            write_req: true,
            value: 0,
            signal: false,
        }
    ));
    assert_eq!(cl.sent, 1);
    assert_eq!(cl.sum, 0);
    assert!(cl.req_written);
    // the swap loses to the server's escalation: nothing is re-accounted
    client_request_done(&mut cl, false);
    assert!(cl.req_written);
    let a = client_step(&mut cl, CabinState::WaitReqYield);
    assert!(matches!(
        a,
        ClientAction::Request {
            expect: CabinState::WaitReqYield,
            write_req: false,
            value: 0,
            signal: true,
        }
    ));
    assert_eq!(cl.sent, 1);
    assert_eq!(cl.sum, 0);
    client_request_done(&mut cl, true);
    assert!(!cl.req_written);
    // second request carries 1
    let a = client_step(&mut cl, CabinState::WaitReqSpin);
    assert!(matches!(a, ClientAction::Request { value: 1, .. }));
    assert_eq!(cl.sum, 1);
}

#[test]
fn client_pending_request_beats_disconnect() {
    // The quota is spent, but the last request's swap lost: it must still be
    // delivered — disconnecting now would lose it.
    let mut cl = ClientLocal::new(1, 1, Some(9), false);
    let a = client_step(&mut cl, CabinState::WaitReqSpin);
    assert!(matches!(a, ClientAction::Request { value: 9, .. }));
    client_request_done(&mut cl, false);
    assert_eq!(cl.sent, cl.num);
    let a = client_step(&mut cl, CabinState::WaitReqYield);
    assert!(matches!(a, ClientAction::Request { write_req: false, value: 9, signal: true, .. }));
    client_request_done(&mut cl, true);
    // only now is the quota truly exhausted
    let a = client_step(&mut cl, CabinState::WaitReqYield);
    assert!(matches!(
        a,
        ClientAction::Disconnect { expect: CabinState::WaitReqYield, signal: true }
    ));
}

#[test]
fn client_disconnects_when_quota_spent() {
    let mut cl = ClientLocal::new(1, 0, None, false);
    let a = client_step(&mut cl, CabinState::WaitReqSpin);
    assert!(matches!(
        a,
        ClientAction::Disconnect { expect: CabinState::WaitReqSpin, signal: false }
    ));
    let a = client_step(&mut cl, CabinState::Disconnected);
    assert!(matches!(a, ClientAction::Stop));
}

#[test]
fn client_waits_and_blocks_where_it_must() {
    let mut cl = ClientLocal::new(1, 1, None, false);
    assert!(matches!(client_step(&mut cl, CabinState::Connecting), ClientAction::HoldConnecting));
    assert!(matches!(client_step(&mut cl, CabinState::WaitRespSpin), ClientAction::AwaitResp));
    assert_eq!(cl.yields, 0);
    assert!(matches!(client_step(&mut cl, CabinState::WaitRespYield), ClientAction::BlockResp));
    assert_eq!(cl.yields, 1);
}

#[test]
fn client_checks_response_against_own_sum() {
    let mut cl = ClientLocal::new(1, 2, Some(4), false);
    let _ = client_step(&mut cl, CabinState::WaitReqSpin);
    assert!(client_check_resp(&cl, 4));
    assert!(!client_check_resp(&cl, 5));
}

#[test]
fn request_values_fixed_and_counter() {
    assert_eq!(req_value(Some(7), 0), 7);
    assert_eq!(req_value(Some(7), 12), 7);
    assert_eq!(req_value(None, 0), 0);
    assert_eq!(req_value(None, 12), 12);
}

#[test]
fn server_claims_and_responds() {
    let mut sv = ServerLocal::new(false);
    assert!(matches!(server_step(&mut sv, CabinState::Connecting), ServerAction::Claim));
    server_claim(&mut sv, 99);
    assert_eq!(sv.client_id, 99);
    let a = server_step(&mut sv, CabinState::WaitRespSpin);
    assert!(matches!(
        a,
        ServerAction::Respond { expect: CabinState::WaitRespSpin, write_resp: true, signal: false }
    ));
    let resp = server_absorb(&mut sv, 10);
    assert_eq!(resp, 10);
    assert_eq!(sv.sum, 10);
    assert!(sv.resp_written);
    // the swap loses to the client's escalation: the answer stays computed
    server_respond_done(&mut sv, false);
    assert!(sv.resp_written);
    let a = server_step(&mut sv, CabinState::WaitRespYield);
    assert!(matches!(
        a,
        ServerAction::Respond { expect: CabinState::WaitRespYield, write_resp: false, signal: true }
    ));
    server_respond_done(&mut sv, true);
    assert!(!sv.resp_written);
    assert_eq!(sv.sum, 10);
}

#[test]
fn server_absorb_wraps() {
    let mut sv = ServerLocal::new(false);
    server_absorb(&mut sv, u64::MAX);
    let resp = server_absorb(&mut sv, 3);
    assert_eq!(sv.sum, 2);
    assert_eq!(resp, 2);
}

#[test]
fn server_blocks_and_counts_yields() {
    let mut sv = ServerLocal::new(false);
    assert!(matches!(server_step(&mut sv, CabinState::AcceptingSpin), ServerAction::AwaitAccept));
    assert_eq!(sv.yields, 0);
    assert!(matches!(server_step(&mut sv, CabinState::AcceptingYield), ServerAction::BlockAccept));
    assert_eq!(sv.yields, 1);
    assert!(matches!(server_step(&mut sv, CabinState::WaitReqSpin), ServerAction::AwaitReq));
    assert!(matches!(server_step(&mut sv, CabinState::WaitReqYield), ServerAction::BlockReq));
    assert_eq!(sv.yields, 2);
}

#[test]
fn server_recycle_resets_everything() {
    let mut sv = ServerLocal::new(true);
    server_claim(&mut sv, 5);
    server_absorb(&mut sv, 40);
    let _ = server_step(&mut sv, CabinState::WaitReqYield);
    assert!(matches!(server_step(&mut sv, CabinState::Disconnected), ServerAction::Recycle));
    let stats = server_recycle(&mut sv);
    assert_eq!(stats.client_id, 5);
    assert_eq!(stats.sum, 40);
    assert_eq!(stats.yields, 1);
    assert_eq!(sv.client_id, 0);
    assert_eq!(sv.sum, 0);
    assert_eq!(sv.yields, 0);
    assert!(!sv.resp_written);
    assert!(sv.spin_only);
}

#[test]
fn waiter_spins_then_escalates() {
    let mut w = Waiter::new(false, 2);
    assert!(matches!(w.poll(CabinState::WaitRespSpin, CabinState::WaitRespSpin), WaitVerdict::SpinAgain));
    assert!(matches!(w.poll(CabinState::WaitRespSpin, CabinState::WaitRespSpin), WaitVerdict::SpinAgain));
    assert!(matches!(w.poll(CabinState::WaitRespSpin, CabinState::WaitRespSpin), WaitVerdict::Escalate));
}

#[test]
fn waiter_never_escalates_in_spin_only_mode() {
    let mut w = Waiter::new(true, 0);
    for _ in 0..100 {
        assert!(matches!(
            w.poll(CabinState::WaitReqSpin, CabinState::WaitReqSpin),
            WaitVerdict::SpinAgain
        ));
    }
}

#[test]
fn waiter_proceeds_once_tag_moves() {
    // escalation is reversible: the state moved, so the role goes on without
    // blocking, however saturated its wait was
    let mut w = Waiter::new(false, 0);
    assert!(matches!(
        w.poll(CabinState::WaitReqSpin, CabinState::WaitRespSpin),
        WaitVerdict::Proceed
    ));
}

#[test]
fn blocked_role_rechecks_before_waiting() {
    // a role that escalated sleeps only while its own Yield tag stands
    assert!(should_wait(CabinState::WaitRespYield, CabinState::WaitRespYield));
    assert!(!should_wait(CabinState::WaitReqSpin, CabinState::WaitRespYield));
    assert!(!should_wait(CabinState::Disconnected, CabinState::WaitRespYield));
}

#[test]
fn yield_tags_pair_with_spin_tags() {
    assert_eq!(yield_tag(CabinState::AcceptingSpin), CabinState::AcceptingYield);
    assert_eq!(yield_tag(CabinState::WaitReqSpin), CabinState::WaitReqYield);
    assert_eq!(yield_tag(CabinState::WaitRespSpin), CabinState::WaitRespYield);
}
