use vstd::prelude::*;

use crate::distribution::{fungible_assets, prize_payouts};
use crate::error::ContractError;
use crate::models::{
    ContractResult, Raffle, RaffleAsset, RaffleStatus, TransferInstruction,
};
use crate::state::{is_owner, ContractState};

verus! {

/// Whether a cancellation goes through: operator only, and only while the
/// raffle is still `Active`.
pub open spec fn cancel_allowed(state: ContractState, sender: Seq<char>) -> bool {
    state.owner@ == sender && state.raffle.status == RaffleStatus::Active
}

/// What a successful cancellation does: the status moves to `Canceled` and
/// the instructions return each fungible prize asset to the operator, whole
/// and in declaration order. Nothing else changes.
pub open spec fn cancel_effect(
    os: ContractState,
    ns: ContractState,
    instrs: Seq<TransferInstruction>,
) -> bool {
    &&& ns == (ContractState {
        raffle: (Raffle { status: RaffleStatus::Canceled, ..os.raffle }),
        ..os
    })
    &&& instrs.len() == fungible_assets(os.raffle.assets@).len()
    &&& forall|i: int|
        0 <= i < instrs.len() ==> {
            &&& fungible_assets(os.raffle.assets@)[i] matches RaffleAsset::Token { .. }
            &&& (#[trigger] instrs[i]).token == fungible_assets(
                os.raffle.assets@,
            )[i]->Token_token
            &&& instrs[i].amount == fungible_assets(os.raffle.assets@)[i]->Token_amount
            &&& instrs[i].recipient@ == os.owner@
        }
}

/// Cancel an active raffle: operator only, and only while `Active`. The
/// status moves to `Canceled` — irreversibly — and the instructions return
/// the fungible prize assets to the operator. Ticket payments are not
/// reversed here: each wallet claims its own refund afterwards.
pub fn cancel(state: &mut ContractState, sender: &String) -> (r: ContractResult<
    Vec<TransferInstruction>,
>)
    requires
        old(state).wf(),
    ensures
        final(state).wf(),
        r is Err ==> *final(state) == *old(state),
        r is Ok <==> cancel_allowed(*old(state), sender@),
        r is Err ==> (r matches Err(ContractError::NotAuthorized)),
        r matches Ok(instrs) ==> cancel_effect(*old(state), *final(state), instrs@),
{
    if !is_owner(state, sender) {
        return Err(ContractError::NotAuthorized);
    }
    if !matches!(state.raffle.status, RaffleStatus::Active) {
        return Err(ContractError::NotAuthorized);
    }
    let instrs = prize_payouts(&state.raffle.assets, &state.owner);
    state.raffle.status = RaffleStatus::Canceled;
    Ok(instrs)
}

} // verus!
