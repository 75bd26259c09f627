use vstd::prelude::*;

use crate::distribution::{
    compute_royalty_payouts, compute_tax_payouts, fungible_assets, prize_payouts, royalty_amount,
    sum_tax_amounts, tax_amount, total_tax_amount,
};
use crate::error::ContractError;
use crate::models::{
    ChainEnv, ContractResult, Raffle, RaffleAsset, RaffleStatus, TransferInstruction,
};
use crate::selection::{draw_winner, single_draw_spec};
use crate::state::{is_owner, ContractState};

verus! {

/// Whether finalization may proceed: operator capability, at least one ticket
/// sold, the raffle still active with no winner set, and — when a sales
/// deadline exists — either the deadline has passed or every ticket is sold,
/// since a sold-out raffle may finalize early.
pub open spec fn finalize_allowed(state: ContractState, env: ChainEnv, sender: Seq<char>) -> bool {
    &&& state.owner@ == sender
    &&& state.raffle.tickets_sold > 0
    &&& state.raffle.status == RaffleStatus::Active
    &&& state.raffle.winner_address is None
    &&& match state.raffle.ticket_sales_end_at {
        Some(d) => env.time_nanos >= d || state.raffle.is_sold_out_spec(),
        None => true,
    }
}

/// What a successful finalization does: the status moves to `Complete`, the
/// drawn buyer is recorded as winner, and the instructions carry, in order:
/// each fungible prize asset to the winner whole, each royalty recipient's
/// percentage of the post-tax pot, and each tax beneficiary's fixed cut of
/// the whole pot. Nothing else changes.
pub open spec fn finalize_effect(
    os: ContractState,
    ns: ContractState,
    instrs: Seq<TransferInstruction>,
    env: ChainEnv,
    sender: Seq<char>,
) -> bool {
    let winner = single_draw_spec(
        os.raffle.seed,
        os.orders@,
        os.raffle.tickets_sold,
        sender,
        env.time_nanos,
        env.height,
        env.tx_ordinal_spec(),
    );
    let pot = os.raffle.tickets_sold as int * os.raffle.price.amount as int;
    let total_tax = sum_tax_amounts(pot, os.taxes@);
    let base = pot - total_tax;
    let np = fungible_assets(os.raffle.assets@).len() as int;
    let nr = os.royalties@.len() as int;
    let nt = os.taxes@.len() as int;
    &&& ns == (ContractState {
        raffle: (Raffle {
            status: RaffleStatus::Complete,
            winner_address: ns.raffle.winner_address,
            ..os.raffle
        }),
        ..os
    })
    &&& (ns.raffle.winner_address matches Some(wa) && wa@ == winner)
    &&& instrs.len() == np + nr + nt
    &&& forall|j: int|
        0 <= j < np ==> {
            &&& fungible_assets(os.raffle.assets@)[j] matches RaffleAsset::Token { .. }
            &&& (#[trigger] instrs[j]).token == fungible_assets(os.raffle.assets@)[j]->Token_token
            &&& instrs[j].amount == fungible_assets(os.raffle.assets@)[j]->Token_amount
            &&& instrs[j].recipient@ == winner
        }
    &&& forall|j: int|
        np <= j < np + nr ==> {
            &&& (#[trigger] instrs[j]).amount as int == royalty_amount(
                base,
                os.royalties@[j - np].pct as int,
            )
            &&& instrs[j].recipient@ == os.royalties@[j - np].address@
            &&& instrs[j].token == os.raffle.price.token
        }
    &&& forall|j: int|
        np + nr <= j < np + nr + nt ==> {
            &&& (#[trigger] instrs[j]).amount as int == tax_amount(
                pot,
                os.taxes@[j - np - nr].pct as int,
            )
            &&& instrs[j].recipient@ == os.taxes@[j - np - nr].address@
            &&& instrs[j].token == os.raffle.price.token
        }
}

/// Finalize the raffle: draw the winner and compute every settlement
/// instruction in one step. On success the status moves to `Complete` — the
/// raffle cannot be ended twice — the drawn buyer is recorded as winner, and
/// the instructions carry, in order: each fungible prize asset to the winner
/// whole, each royalty recipient's percentage of the post-tax pot, and each
/// tax beneficiary's fixed cut of the whole pot.
#[verifier::rlimit(30)]
pub fn choose_winner(state: &mut ContractState, env: &ChainEnv, sender: &String) -> (r:
    ContractResult<Vec<TransferInstruction>>)
    requires
        old(state).wf(),
    ensures
        final(state).wf(),
        r is Err ==> *final(state) == *old(state),
        r is Ok <==> finalize_allowed(*old(state), *env, sender@),
        old(state).owner@ != sender@ ==> (r matches Err(ContractError::NotAuthorized)),
        old(state).owner@ == sender@ && old(state).raffle.tickets_sold == 0 ==> (r matches Err(
            ContractError::AlreadyClaimed,
        )),
        old(state).owner@ == sender@ && old(state).raffle.tickets_sold > 0 && (old(
            state,
        ).raffle.status != RaffleStatus::Active || old(state).raffle.winner_address is Some) ==> (
        r matches Err(ContractError::NotActive)),
        old(state).owner@ == sender@ && old(state).raffle.tickets_sold > 0 && old(
            state,
        ).raffle.status == RaffleStatus::Active && old(state).raffle.winner_address is None
            && !finalize_allowed(*old(state), *env, sender@) ==> (r matches Err(
            ContractError::NotSoldOut,
        )),
        r matches Ok(instrs) ==> finalize_effect(*old(state), *final(state), instrs@, *env, sender@),
{
    if !is_owner(state, sender) {
        return Err(ContractError::NotAuthorized);
    }
    if state.raffle.tickets_sold == 0 {
        return Err(ContractError::AlreadyClaimed);
    }
    if !matches!(state.raffle.status, RaffleStatus::Active) || state.raffle.winner_address.is_some()
    {
        return Err(ContractError::NotActive);
    }
    if let Some(sales_end_at) = state.raffle.ticket_sales_end_at {
        if env.time_nanos < sales_end_at && !state.raffle.is_sold_out() {
            return Err(ContractError::NotSoldOut);
        }
    }

    let ghost os = *state;

    let winner = draw_winner(&state.raffle, &state.orders, sender, env);

    let mut instrs = prize_payouts(&state.raffle.assets, &winner);
    let ghost np = instrs@.len() as int;

    let pot: u128 = (state.raffle.tickets_sold as u128) * state.raffle.price.amount;
    let total_tax = total_tax_amount(pot, &state.taxes);
    let base = pot - total_tax;

    let mut royalty_instrs = compute_royalty_payouts(base, &state.raffle.price.token,
        &state.royalties);
    instrs.append(&mut royalty_instrs);

    let mut tax_instrs = compute_tax_payouts(pot, &state.raffle.price.token, &state.taxes);
    instrs.append(&mut tax_instrs);

    state.raffle.status = RaffleStatus::Complete;
    state.raffle.winner_address = Some(winner);

    Ok(instrs)
}

} // verus!
