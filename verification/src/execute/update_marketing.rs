use vstd::prelude::*;

use crate::error::ContractError;
use crate::models::{ContractResult, RaffleMarketingInfo};
use crate::state::{is_owner, ContractState};

verus! {

/// What a successful metadata update does: the stored display metadata is
/// replaced whole, and nothing else changes.
pub open spec fn marketing_effect(
    os: ContractState,
    ns: ContractState,
    marketing: RaffleMarketingInfo,
) -> bool {
    ns == (ContractState { marketing, ..os })
}

/// Replace the display metadata. Operator only; the engine's rules never read
/// this data.
pub fn update_marketing(
    state: &mut ContractState,
    sender: &String,
    updated_marketing_info: RaffleMarketingInfo,
) -> (r: ContractResult<()>)
    requires
        old(state).wf(),
    ensures
        final(state).wf(),
        r is Err ==> *final(state) == *old(state),
        r is Ok <==> old(state).owner@ == sender@,
        old(state).owner@ != sender@ ==> (r matches Err(ContractError::NotAuthorized)),
        r is Ok ==> marketing_effect(*old(state), *final(state), updated_marketing_info),
{
    if !is_owner(state, sender) {
        return Err(ContractError::NotAuthorized);
    }
    state.marketing = updated_marketing_info;
    Ok(())
}

} // verus!
