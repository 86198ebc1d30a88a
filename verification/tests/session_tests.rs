//! End-to-end sessions on the model slot.

use benchshm::session::run_session;
use benchshm::session::run_session_yielding;
use benchshm::slot::Cabin;
use benchshm::state::CabinState;

#[test]
fn session_three_by_two() {
    // N = 3 exchanges of the fixed even value 2 over the slot.
    let mut cabin = Cabin::new();
    let (client_sum, stats, reads) = run_session(&mut cabin, 42, 3, Some(2));
    assert_eq!(client_sum, 6);
    assert_eq!(stats.sum, 6);
    assert_eq!(stats.client_id, 42);
    assert_eq!(reads, vec![2, 4, 6]);
    assert_eq!(cabin.load_state(), CabinState::AcceptingSpin);
}

#[test]
fn session_sums_agree_odd_value() {
    let mut cabin = Cabin::new();
    let (client_sum, stats, reads) = run_session(&mut cabin, 7, 4, Some(3));
    assert_eq!(client_sum, 12);
    assert_eq!(stats.sum, 12);
    assert_eq!(reads, vec![3, 6, 9, 12]);
}

#[test]
fn session_counter_mode() {
    // Counter mode sends 0, 1, 2, 3, 4.
    let mut cabin = Cabin::new();
    let (client_sum, stats, reads) = run_session(&mut cabin, 1, 5, None);
    assert_eq!(client_sum, 10);
    assert_eq!(stats.sum, 10);
    assert_eq!(reads, vec![0, 1, 3, 6, 10]);
}

#[test]
fn session_zero_quota() {
    // A quota of zero connects and disconnects without an exchange.
    let mut cabin = Cabin::new();
    let (client_sum, stats, reads) = run_session(&mut cabin, 9, 0, Some(5));
    assert_eq!(client_sum, 0);
    assert_eq!(stats.sum, 0);
    assert_eq!(stats.client_id, 9);
    assert!(reads.is_empty());
    assert_eq!(cabin.load_state(), CabinState::AcceptingSpin);
}

#[test]
fn slot_recycles_between_sessions() {
    // A second client connects to the same slot; nothing of the first
    // session leaks into the second.
    let mut cabin = Cabin::new();
    let (sum1, stats1, _) = run_session(&mut cabin, 11, 3, Some(2));
    assert_eq!(sum1, 6);
    assert_eq!(stats1.client_id, 11);
    assert_eq!(cabin.load_state(), CabinState::AcceptingSpin);
    assert_eq!(cabin.id(), 0);
    assert_eq!(cabin.resp(), 0);

    let (sum2, stats2, reads2) = run_session(&mut cabin, 22, 2, Some(10));
    assert_eq!(sum2, 20);
    assert_eq!(stats2.sum, 20);
    assert_eq!(stats2.client_id, 22);
    assert_eq!(reads2, vec![10, 20]);
    assert_eq!(cabin.load_state(), CabinState::AcceptingSpin);
}

#[test]
fn yielding_session_three_by_two() {
    // The adversarial schedule: every wait escalates and blocks, every
    // advancing swap loses once first — the sums still agree and nothing is
    // summed twice.
    let mut cabin = Cabin::new();
    let (client_sum, client_yields, stats) = run_session_yielding(&mut cabin, 5, 3, Some(2));
    assert_eq!(client_sum, 6);
    assert_eq!(stats.sum, 6);
    assert_eq!(stats.client_id, 5);
    // the client blocked once per response wait
    assert_eq!(client_yields, 3);
    // the server blocked for the connect, each of the 3 requests, and the
    // disconnect
    assert_eq!(stats.yields, 5);
    assert_eq!(cabin.load_state(), CabinState::AcceptingSpin);
    assert_eq!(cabin.id(), 0);
    assert_eq!(cabin.resp(), 0);
}

#[test]
fn yielding_session_counter_mode() {
    let mut cabin = Cabin::new();
    let (client_sum, client_yields, stats) = run_session_yielding(&mut cabin, 8, 4, None);
    assert_eq!(client_sum, 6);
    assert_eq!(stats.sum, 6);
    assert_eq!(client_yields, 4);
    assert_eq!(stats.yields, 6);
}

#[test]
fn session_connects_against_escalated_server() {
    // the server already escalated its accept wait: the client's connect
    // goes through the Yield tag and signals
    let mut cabin = Cabin::new();
    let won = cabin.cas_state(CabinState::AcceptingSpin, CabinState::AcceptingYield);
    assert!(won.is_ok());
    let (client_sum, stats, _) = run_session(&mut cabin, 3, 2, Some(2));
    assert_eq!(client_sum, 4);
    assert_eq!(stats.sum, 4);
    assert_eq!(cabin.load_state(), CabinState::AcceptingSpin);
}

#[test]
fn yielding_and_plain_sessions_share_a_slot() {
    // a session under the adversarial schedule recycles the slot just as the
    // plain one does
    let mut cabin = Cabin::new();
    let (sum1, _, stats1) = run_session_yielding(&mut cabin, 1, 2, Some(7));
    assert_eq!(sum1, 14);
    assert_eq!(stats1.sum, 14);
    let (sum2, stats2, _) = run_session(&mut cabin, 2, 3, None);
    assert_eq!(sum2, 3);
    assert_eq!(stats2.sum, 3);
}

#[test]
fn session_sum_is_product_for_fixed_value() {
    // The proved law in numbers: a fixed value v over n exchanges sums to
    // v * n on both sides.
    for n in [0u32, 1, 2, 7, 50] {
        let mut cabin = Cabin::new();
        let (client_sum, stats, _) = run_session(&mut cabin, 1, n, Some(4));
        assert_eq!(client_sum, 4 * n as u64);
        assert_eq!(stats.sum, 4 * n as u64);
    }
}
