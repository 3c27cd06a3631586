//! Fidelity-bond bootstrap decisions, configuration merging, and the
//! supervisor's gating of new connections.

use coinswap_maker::config::{ConnectionType, MakerConfig};
use coinswap_maker::fidelity::{
    fidelity_locktime, fidelity_step, update_highest_fidelity, FidelityAction, FidelityEvent,
    FidelityProof,
};
use coinswap_maker::chain::OutPoint;
use coinswap_maker::supervisor::{liveness_step, should_accept};

#[test]
fn fidelity_success_publishes_the_proof() {
    let action = fidelity_step(1, &FidelityEvent::CreateSucceeded { index: 4 });
    assert_eq!(action, FidelityAction::PublishProof { index: 4 });
}

#[test]
fn fidelity_shortfall_is_exact_and_backoff_doubles() {
    let action =
        fidelity_step(1, &FidelityEvent::InsufficientFunds { available: 40, required: 100 });
    assert_eq!(action, FidelityAction::RetryAfterTopUp { shortfall: 60, sleep_secs: 10 });
    // exponential sleep-back: each retry doubles the wait
    let action =
        fidelity_step(2, &FidelityEvent::InsufficientFunds { available: 40, required: 100 });
    assert_eq!(action, FidelityAction::RetryAfterTopUp { shortfall: 60, sleep_secs: 20 });
    let action =
        fidelity_step(3, &FidelityEvent::InsufficientFunds { available: 0, required: 5_000_000 });
    assert_eq!(
        action,
        FidelityAction::RetryAfterTopUp { shortfall: 5_000_000, sleep_secs: 40 }
    );
    let action =
        fidelity_step(10, &FidelityEvent::InsufficientFunds { available: 1, required: 2 });
    assert_eq!(action, FidelityAction::RetryAfterTopUp { shortfall: 1, sleep_secs: 5_120 });
    // the doubling saturates at the cap
    let action =
        fidelity_step(10_000, &FidelityEvent::InsufficientFunds { available: 1, required: 2 });
    assert_eq!(action, FidelityAction::RetryAfterTopUp { shortfall: 1, sleep_secs: 6_000 });
}

#[test]
fn existing_bond_is_reused_without_creating() {
    let action = fidelity_step(1, &FidelityEvent::ExistingBond { index: 7 });
    assert_eq!(action, FidelityAction::PublishProof { index: 7 });
}

#[test]
fn fidelity_other_failure_aborts() {
    assert_eq!(fidelity_step(1, &FidelityEvent::OtherFailure), FidelityAction::Abort);
}

#[test]
fn fidelity_locktime_adds_the_bond_lifetime() {
    assert_eq!(fidelity_locktime(100, 950), Some(1050));
    assert_eq!(fidelity_locktime(u32::MAX, 1), None);
}

fn bond_proof(value: u64) -> FidelityProof {
    FidelityProof {
        bond_outpoint: OutPoint { txid: vec![1; 32], vout: 0 },
        bond_value: value,
        locktime: 1000,
        signature: vec![0x30],
    }
}

#[test]
fn highest_fidelity_proof_is_kept() {
    let first = update_highest_fidelity(None, bond_proof(100));
    assert_eq!(first.bond_value, 100);
    let bigger = update_highest_fidelity(Some(first), bond_proof(500));
    assert_eq!(bigger.bond_value, 500);
    let still_bigger = update_highest_fidelity(Some(bigger), bond_proof(200));
    assert_eq!(still_bigger.bond_value, 500);
}

#[test]
fn config_overrides_replace_only_what_is_given() {
    let config = MakerConfig::default();
    assert_eq!(config.port, 6102);
    assert_eq!(config.rpc_port, 6103);
    let merged = config.apply_overrides(Some(7000), None, Some(9050), Some(ConnectionType::TOR));
    assert_eq!(merged.port, 7000);
    assert_eq!(merged.rpc_port, 6103);
    assert_eq!(merged.socks_port, 9050);
    assert_eq!(merged.connection_type, ConnectionType::TOR);
}

#[test]
fn liveness_paces_the_pinger_and_gates_intake() {
    // healthy node: long interval, clients accepted
    assert_eq!(liveness_step(true), (true, 60));
    // unhealthy node: heartbeat retries, intake paused
    assert_eq!(liveness_step(false), (false, 3));
}

#[test]
fn no_connection_reaches_the_handler_while_paused() {
    assert!(should_accept(false, true));
    assert!(!should_accept(false, false));
    assert!(!should_accept(true, true));
    assert!(!should_accept(true, false));
}
