use vstd::prelude::*;

use crate::msg::RefundStatusResponse;
use crate::state::{claimed, has_claimed, ContractState};

verus! {

/// Whether `claimant` has already been paid its refund. A wallet that never
/// claimed — or never existed — reads as unclaimed.
pub fn refund_status(state: &ContractState, claimant: &String) -> (r: RefundStatusResponse)
    ensures
        r.has_claimed == claimed(state.refund_claims@, claimant@),
{
    RefundStatusResponse { has_claimed: has_claimed(&state.refund_claims, claimant) }
}

} // verus!
