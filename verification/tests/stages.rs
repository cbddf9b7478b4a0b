use stateful_validator::context::{BlockContext, VersionedConstants};
use stateful_validator::errors::{StateError, TransactionFeeError, TransactionPreValidationError};
use stateful_validator::state::{ContractAddress, Nonce, StateOverlay};
use stateful_validator::transaction::{AccountTransaction, TransactionInfo};

fn overlay_with(address: u64, nonce: u64) -> StateOverlay {
    let mut overlay = StateOverlay::new();
    overlay.set_nonce(ContractAddress(address), Nonce(nonce));
    overlay
}

fn stage_tx(sender: u64, nonce: u64) -> AccountTransaction {
    AccountTransaction::Invoke(TransactionInfo {
        sender_address: ContractAddress(sender),
        nonce: Nonce(nonce),
    })
}

fn stage_context(tx: &AccountTransaction) -> stateful_validator::context::TransactionContext {
    BlockContext::new(VersionedConstants { tx_initial_gas: 1_000_000 }).to_tx_context(tx)
}

#[test]
fn non_strict_check_accepts_queued_nonces() {
    let overlay = overlay_with(7, 2);
    // Several queued transactions from one sender, none of which has
    // advanced the state yet, must all pass mempool admission.
    for tx_nonce in [2, 3, 7] {
        let tx = stage_tx(7, tx_nonce);
        let r = tx.perform_pre_validation_stage(&overlay, &stage_context(&tx), true, false, &Ok(()));
        assert_eq!(r, Ok(()), "incoming nonce {tx_nonce}");
    }
}

#[test]
fn non_strict_check_rejects_a_past_nonce() {
    let overlay = overlay_with(7, 2);
    let tx = stage_tx(7, 1);
    assert_eq!(
        tx.perform_pre_validation_stage(&overlay, &stage_context(&tx), true, false, &Ok(())),
        Err(TransactionPreValidationError::InvalidNonce {
            address: ContractAddress(7),
            account_nonce: Nonce(2),
            incoming_tx_nonce: Nonce(1),
        })
    );
}

#[test]
fn strict_check_demands_the_exact_nonce() {
    let overlay = overlay_with(7, 2);
    let exact = stage_tx(7, 2);
    assert_eq!(
        exact.perform_pre_validation_stage(&overlay, &stage_context(&exact), true, true, &Ok(())),
        Ok(())
    );
    let ahead = stage_tx(7, 3);
    assert_eq!(
        ahead.perform_pre_validation_stage(&overlay, &stage_context(&ahead), true, true, &Ok(())),
        Err(TransactionPreValidationError::InvalidNonce {
            address: ContractAddress(7),
            account_nonce: Nonce(2),
            incoming_tx_nonce: Nonce(3),
        })
    );
}

#[test]
fn fee_verdict_ignored_when_fee_check_is_off() {
    let overlay = overlay_with(7, 0);
    let tx = stage_tx(7, 0);
    let broke = Err(TransactionFeeError::MaxFeeExceedsBalance { balance_low: 5 });
    assert_eq!(
        tx.perform_pre_validation_stage(&overlay, &stage_context(&tx), false, false, &broke),
        Ok(())
    );
    assert_eq!(
        tx.perform_pre_validation_stage(&overlay, &stage_context(&tx), true, false, &broke),
        Err(TransactionPreValidationError::TransactionFeeError(
            TransactionFeeError::MaxFeeExceedsBalance { balance_low: 5 }
        ))
    );
}

#[test]
fn nonce_check_runs_before_the_fee_check() {
    let overlay = overlay_with(7, 4);
    let tx = stage_tx(7, 1);
    let broke = Err(TransactionFeeError::MaxFeeExceedsBalance { balance_low: 5 });
    assert!(matches!(
        tx.perform_pre_validation_stage(&overlay, &stage_context(&tx), true, false, &broke),
        Err(TransactionPreValidationError::InvalidNonce { .. })
    ));
}

#[test]
fn overlay_set_and_get_round_trip() {
    let mut overlay = StateOverlay::new();
    overlay.set_nonce(ContractAddress(1), Nonce(10));
    overlay.set_nonce(ContractAddress(2), Nonce(20));
    overlay.set_nonce(ContractAddress(1), Nonce(11));
    assert_eq!(overlay.get_nonce_at(ContractAddress(1)), Ok(Nonce(11)));
    assert_eq!(overlay.get_nonce_at(ContractAddress(2)), Ok(Nonce(20)));
    assert_eq!(
        overlay.get_nonce_at(ContractAddress(3)),
        Err(StateError::UnresolvedAddress { address: ContractAddress(3) })
    );
}

#[test]
fn overlay_increment_advances_only_the_given_address() {
    let mut overlay = overlay_with(1, 10);
    overlay.set_nonce(ContractAddress(2), Nonce(20));
    assert_eq!(overlay.increment_nonce(ContractAddress(1)), Ok(()));
    assert_eq!(overlay.get_nonce_at(ContractAddress(1)), Ok(Nonce(11)));
    assert_eq!(overlay.get_nonce_at(ContractAddress(2)), Ok(Nonce(20)));
}

#[test]
fn overlay_increment_unresolved_address_errors() {
    let mut overlay = StateOverlay::new();
    assert_eq!(
        overlay.increment_nonce(ContractAddress(9)),
        Err(StateError::UnresolvedAddress { address: ContractAddress(9) })
    );
}
