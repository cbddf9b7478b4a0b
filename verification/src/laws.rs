//! Laws of the admission pipeline, stated over its specification model.

use vstd::prelude::*;

use crate::errors::{
    StatefulValidatorError, TransactionPreValidationError,
};
use crate::state::{ContractAddress, Nonce};
use crate::stateful_validator::{
    spec_get_nonce, spec_nonces_after, spec_perform_validations, StageOutcomes,
};
use crate::transaction::{spec_pre_validation, AccountTransaction};

verus! {

/// Nonce monotonicity: a successfully admitted non-deploy transaction
/// advances its sender's nonce by exactly one and touches no other
/// binding; a failed admission leaves every nonce unchanged.
pub proof fn lemma_nonce_monotonicity(
    nonces: Map<u64, u64>,
    tx: AccountTransaction,
    outcomes: StageOutcomes,
    skip_validate: bool,
    skip_fee_check: bool,
)
    requires
        !tx.is_deploy_account(),
        nonces.contains_key(tx.spec_tx_info().sender_address.0) ==> nonces[tx.spec_tx_info().sender_address.0]
            < u64::MAX,
    ensures
        spec_perform_validations(nonces, tx, outcomes, skip_validate, skip_fee_check) is Ok ==> {
            let sender = tx.spec_tx_info().sender_address.0;
            let after = spec_nonces_after(nonces, tx, outcomes, skip_validate, skip_fee_check);
            &&& nonces.contains_key(sender)
            &&& after == nonces.insert(sender, (nonces[sender] + 1) as u64)
            &&& after[sender] == nonces[sender] + 1
        },
        spec_perform_validations(nonces, tx, outcomes, skip_validate, skip_fee_check) is Err
            ==> spec_nonces_after(nonces, tx, outcomes, skip_validate, skip_fee_check) == nonces,
{
}

/// Deploy fast path: a deploy-account transaction's verdict depends on the
/// execute run alone — neither the validation stage, nor the
/// post-validation report, nor either skip flag is consulted — and this
/// core makes no separate nonce increment beyond what execution itself
/// performs.
pub proof fn lemma_deploy_fast_path(
    nonces: Map<u64, u64>,
    tx: AccountTransaction,
    first: StageOutcomes,
    second: StageOutcomes,
    first_skip_validate: bool,
    first_skip_fee_check: bool,
    second_skip_validate: bool,
    second_skip_fee_check: bool,
)
    requires
        tx.is_deploy_account(),
        first.execute == second.execute,
    ensures
        spec_perform_validations(nonces, tx, first, first_skip_validate, first_skip_fee_check)
            == spec_perform_validations(
            nonces,
            tx,
            second,
            second_skip_validate,
            second_skip_fee_check,
        ),
        spec_nonces_after(nonces, tx, first, first_skip_validate, first_skip_fee_check) == nonces,
{
}

/// Flag orthogonality: for a transaction whose sender cannot cover the fee
/// but whose nonce is acceptable and whose validate run and
/// post-validation report pass, skipping the fee check admits it, while
/// running the fee check rejects it with exactly the pre-validation fee
/// error.
pub proof fn lemma_fee_flag_orthogonality(
    nonces: Map<u64, u64>,
    tx: AccountTransaction,
    outcomes: StageOutcomes,
)
    requires
        !tx.is_deploy_account(),
        nonces.contains_key(tx.spec_tx_info().sender_address.0),
        nonces[tx.spec_tx_info().sender_address.0] <= tx.spec_tx_info().nonce.0,
        outcomes.fee is Err,
        outcomes.validate is Ok,
        outcomes.post_validation is Ok,
    ensures
        spec_perform_validations(nonces, tx, outcomes, false, true) is Ok,
        spec_perform_validations(nonces, tx, outcomes, false, false) == Err::<
            (),
            StatefulValidatorError,
        >(
            StatefulValidatorError::TransactionPreValidationError(
                TransactionPreValidationError::TransactionFeeError(outcomes.fee->Err_0),
            ),
        ),
{
}

/// Validate skip: with `skip_validate` set, neither the validate run nor
/// the post-validation report is consulted, even where either would have
/// failed.
pub proof fn lemma_validate_skip(
    nonces: Map<u64, u64>,
    tx: AccountTransaction,
    first: StageOutcomes,
    second: StageOutcomes,
    skip_fee_check: bool,
)
    requires
        first.execute == second.execute,
        first.fee == second.fee,
    ensures
        spec_perform_validations(nonces, tx, first, true, skip_fee_check)
            == spec_perform_validations(nonces, tx, second, true, skip_fee_check),
{
}

/// Error short-circuit: a failing pre-validation step decides the verdict
/// by itself — the validate run and the post-validation report are never
/// consulted — and every nonce is left unchanged.
pub proof fn lemma_pre_validation_short_circuit(
    nonces: Map<u64, u64>,
    tx: AccountTransaction,
    first: StageOutcomes,
    second: StageOutcomes,
    skip_validate: bool,
    skip_fee_check: bool,
)
    requires
        !tx.is_deploy_account(),
        first.fee == second.fee,
        spec_pre_validation(
            nonces,
            tx.spec_tx_info(),
            first.fee,
            !skip_fee_check,
            false,
        ) is Err,
    ensures
        spec_perform_validations(nonces, tx, first, skip_validate, skip_fee_check) == Err::<
            (),
            StatefulValidatorError,
        >(
            StatefulValidatorError::TransactionPreValidationError(
                spec_pre_validation(
                    nonces,
                    tx.spec_tx_info(),
                    first.fee,
                    !skip_fee_check,
                    false,
                )->Err_0,
            ),
        ),
        spec_perform_validations(nonces, tx, second, skip_validate, skip_fee_check)
            == spec_perform_validations(nonces, tx, first, skip_validate, skip_fee_check),
        spec_nonces_after(nonces, tx, first, skip_validate, skip_fee_check) == nonces,
{
}

/// One admission attempt: the transaction, the collaborators' responses,
/// and the two skip flags it was run with.
pub struct AdmissionStep {
    pub tx: AccountTransaction,
    pub outcomes: StageOutcomes,
    pub skip_validate: bool,
    pub skip_fee_check: bool,
}

/// The pipeline's verdict for one attempt against the given bindings.
pub open spec fn spec_admission_verdict(nonces: Map<u64, u64>, step: AdmissionStep) -> Result<
    (),
    StatefulValidatorError,
> {
    spec_perform_validations(nonces, step.tx, step.outcomes, step.skip_validate, step.skip_fee_check)
}

/// The nonce bindings one attempt leaves behind.
pub open spec fn spec_admission_step(nonces: Map<u64, u64>, step: AdmissionStep) -> Map<u64, u64> {
    spec_nonces_after(nonces, step.tx, step.outcomes, step.skip_validate, step.skip_fee_check)
}

/// The nonce bindings a whole sequence of attempts leaves behind, first
/// attempt first.
pub open spec fn spec_nonces_after_sequence(
    nonces: Map<u64, u64>,
    steps: Seq<AdmissionStep>,
) -> Map<u64, u64>
    decreases steps.len(),
{
    if steps.len() == 0 {
        nonces
    } else {
        spec_nonces_after_sequence(spec_admission_step(nonces, steps[0]), steps.drop_first())
    }
}

proof fn lemma_sequence_take_shift(nonces: Map<u64, u64>, steps: Seq<AdmissionStep>, i: int)
    requires
        0 <= i,
        i + 1 <= steps.len(),
    ensures
        spec_nonces_after_sequence(nonces, steps.take(i + 1)) == spec_nonces_after_sequence(
            spec_admission_step(nonces, steps[0]),
            steps.drop_first().take(i),
        ),
{
    let taken = steps.take(i + 1);
    assert(taken[0] == steps[0]);
    assert(taken.drop_first() =~= steps.drop_first().take(i));
}

/// Nonce monotonicity over a whole sequence: when every attempt is a
/// successfully admitted non-deploy transaction of the same sender, the
/// sender's nonce grows by exactly one per admission.
pub proof fn lemma_nonce_monotonicity_sequence(
    nonces: Map<u64, u64>,
    sender: u64,
    steps: Seq<AdmissionStep>,
)
    requires
        nonces.contains_key(sender),
        nonces[sender] + steps.len() <= u64::MAX,
        forall|i: int| 0 <= i < steps.len() ==> !(#[trigger] steps[i]).tx.is_deploy_account(),
        forall|i: int|
            0 <= i < steps.len() ==> (#[trigger] steps[i]).tx.spec_tx_info().sender_address.0
                == sender,
        forall|i: int|
            0 <= i < steps.len() ==> spec_admission_verdict(
                spec_nonces_after_sequence(nonces, steps.take(i)),
                #[trigger] steps[i],
            ) is Ok,
    ensures
        spec_nonces_after_sequence(nonces, steps).contains_key(sender),
        spec_nonces_after_sequence(nonces, steps)[sender] == nonces[sender] + steps.len(),
    decreases steps.len(),
{
    if steps.len() > 0 {
        assert(steps.take(0) =~= Seq::<AdmissionStep>::empty());
        assert(spec_admission_verdict(nonces, steps[0]) is Ok);
        let advanced = spec_admission_step(nonces, steps[0]);
        assert(advanced.contains_key(sender) && advanced[sender] == nonces[sender] + 1);
        let rest = steps.drop_first();
        assert forall|i: int| 0 <= i < rest.len() implies !(#[trigger] rest[i]).tx.is_deploy_account()
            && rest[i].tx.spec_tx_info().sender_address.0 == sender && spec_admission_verdict(
            spec_nonces_after_sequence(advanced, rest.take(i)),
            rest[i],
        ) is Ok by {
            assert(rest[i] == steps[i + 1]);
            lemma_sequence_take_shift(nonces, steps, i);
        }
        lemma_nonce_monotonicity_sequence(advanced, sender, rest);
    }
}

/// No nonce ever decreases: whatever the transaction, the collaborators'
/// responses and the flags, the pipeline leaves every binding either
/// unchanged or advanced by one.
pub proof fn lemma_nonce_never_decreases(
    nonces: Map<u64, u64>,
    tx: AccountTransaction,
    outcomes: StageOutcomes,
    skip_validate: bool,
    skip_fee_check: bool,
)
    requires
        nonces.contains_key(tx.spec_tx_info().sender_address.0) ==> nonces[tx.spec_tx_info().sender_address.0]
            < u64::MAX,
    ensures
        ({
            let after = spec_nonces_after(nonces, tx, outcomes, skip_validate, skip_fee_check);
            &&& after.dom() == nonces.dom()
            &&& forall|address: u64|
                nonces.contains_key(address) ==> #[trigger] after[address] >= nonces[address]
        }),
{
    let after = spec_nonces_after(nonces, tx, outcomes, skip_validate, skip_fee_check);
    assert(after.dom() =~= nonces.dom());
}

/// Idempotent read: a nonce read leaves the validator unchanged (see the
/// contract of `get_nonce`), so two reads against the same bindings with
/// no intervening mutation return the same value.
pub proof fn lemma_idempotent_read(
    nonces: Map<u64, u64>,
    address: ContractAddress,
    first: Result<Nonce, StatefulValidatorError>,
    second: Result<Nonce, StatefulValidatorError>,
)
    requires
        first == spec_get_nonce(nonces, address),
        second == spec_get_nonce(nonces, address),
    ensures
        first == second,
{
}

} // verus!
