use vstd::prelude::*;

use crate::error::ContractError;
use crate::models::ContractResult;
use crate::state::{is_owner, ContractState};

verus! {

/// What a successful ownership transfer does: the stored operator identity
/// becomes `new_owner`, and nothing else about the raffle changes.
pub open spec fn ownership_effect(os: ContractState, ns: ContractState, new_owner: String) -> bool {
    &&& ns.owner@ == new_owner@
    &&& ns == (ContractState { owner: ns.owner, ..os })
}

/// Replace the stored operator identity. Only the current operator may do it;
/// nothing else about the raffle changes.
pub fn transfer_ownership(state: &mut ContractState, sender: &String, new_owner: &String) -> (r:
    ContractResult<()>)
    requires
        old(state).wf(),
    ensures
        final(state).wf(),
        r is Err ==> *final(state) == *old(state),
        r is Ok <==> old(state).owner@ == sender@,
        old(state).owner@ != sender@ ==> (r matches Err(ContractError::NotAuthorized)),
        r is Ok ==> ownership_effect(*old(state), *final(state), *new_owner),
{
    if !is_owner(state, sender) {
        return Err(ContractError::NotAuthorized);
    }
    state.owner = new_owner.clone();
    Ok(())
}

} // verus!
