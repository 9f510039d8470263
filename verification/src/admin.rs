//! Access checks shared by the ledger's operations.

use vstd::prelude::*;

use crate::errors::ContractError;
use crate::storage::Tipz;
use crate::profile::{deregister_refusal, moderation_refusal, page_refusal, registration_refusal, update_refusal};
use crate::refund::{answer_refusal, request_refund_outcome};
use crate::tips::{send_tip_on_behalf_refusal, send_tip_refusal, withdraw_refusal};
use crate::types::{Address, PageView, RefundRequest};

verus! {

/// Refuses with `ContractPaused` while the ledger is paused.
pub fn require_not_paused(state: &Tipz) -> (r: Result<(), ContractError>)
    ensures
        r is Ok <==> !state.spec_paused(),
        r is Err ==> r == Err::<(), ContractError>(ContractError::ContractPaused),
{
    if state.is_paused() {
        return Err(ContractError::ContractPaused);
    }
    Ok(())
}

/// Refuses anyone but the admin: `NotInitialized` while no admin is set,
/// `NotAuthorized` for any other caller.
pub fn require_admin(state: &Tipz, caller: Address) -> (r: Result<(), ContractError>)
    ensures
        r is Ok <==> state.spec_admin() == Some(caller),
        state.spec_admin() is None ==> r == Err::<(), ContractError>(ContractError::NotInitialized),
        state.spec_admin() matches Some(a) && a != caller ==> r == Err::<(), ContractError>(ContractError::NotAuthorized),
{
    let admin = match state.runtime_config {
        Some(config) => config.admin,
        None => match state.admin {
            Some(a) => a,
            None => {
                return Err(ContractError::NotInitialized);
            },
        },
    };
    if admin.id != caller.id {
        return Err(ContractError::NotAuthorized);
    }
    Ok(())
}


/// Law: while the ledger is paused every operation that writes is refused
/// and changes nothing: registration, profile updates and removal,
/// activation changes, donation pages, tips (directly and on behalf),
/// withdrawals, refund requests and the creator's answers to them.
pub proof fn lemma_paused_refuses_writes(
    state: Tipz,
    caller: Address,
    other: Address,
    creator: Address,
    amount: i128,
    text: Seq<u8>,
    tip_id: u32,
    page: PageView,
    now: u64,
)
    requires
        state.spec_paused(),
    ensures
        registration_refusal(state, caller, text, text, text, text, text) == Some(ContractError::ContractPaused),
        update_refusal(state, caller, Some(text), Some(text), Some(text), Some(text)) == Some(
            ContractError::ContractPaused,
        ),
        deregister_refusal(state, caller) == Some(ContractError::ContractPaused),
        moderation_refusal(state, caller, creator) == Some(ContractError::ContractPaused),
        page_refusal(state, creator, page) == Some(ContractError::ContractPaused),
        send_tip_refusal(state, caller, creator, amount, text, now) is Some,
        send_tip_on_behalf_refusal(state, caller, other, creator, amount, text, now) == Some(
            ContractError::ContractPaused,
        ),
        withdraw_refusal(state, caller, amount) == Some(ContractError::ContractPaused),
        request_refund_outcome(state, caller, tip_id, now) == Err::<RefundRequest, ContractError>(
            ContractError::ContractPaused,
        ),
        answer_refusal(state, caller, tip_id) == Some(ContractError::ContractPaused),
{
}

} // verus!
