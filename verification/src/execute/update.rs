use vstd::prelude::*;

use crate::error::ContractError;
use crate::models::{ContractResult, RaffleMarketingInfo};
use crate::state::{is_owner, ContractState};

verus! {

/// Replace the display metadata when some was supplied. Operator only; the
/// engine's rules never read this data.
pub fn update(
    state: &mut ContractState,
    sender: &String,
    maybe_marketing: Option<RaffleMarketingInfo>,
) -> (r: ContractResult<()>)
    requires
        old(state).wf(),
    ensures
        final(state).wf(),
        r is Err ==> *final(state) == *old(state),
        r is Ok <==> old(state).owner@ == sender@,
        old(state).owner@ != sender@ ==> (r matches Err(ContractError::NotAuthorized)),
        r is Ok ==> *final(state) == (ContractState {
            marketing: match maybe_marketing {
                Some(m) => m,
                None => old(state).marketing,
            },
            ..*old(state)
        }),
{
    if !is_owner(state, sender) {
        return Err(ContractError::NotAuthorized);
    }
    if let Some(marketing) = maybe_marketing {
        state.marketing = marketing;
    }
    Ok(())
}

} // verus!
