use vstd::prelude::*;

use crate::error::ContractError;
use crate::execute::buy_tickets::{buy_tickets, purchase_accepted, purchase_effect};
use crate::execute::cancel::{cancel, cancel_allowed, cancel_effect};
use crate::execute::choose_winner::{choose_winner, finalize_allowed, finalize_effect};
use crate::execute::claim_refund::{claim_refund, refund_allowed, refund_effect};
use crate::execute::transfer_ownership::{ownership_effect, transfer_ownership};
use crate::execute::update_marketing::{marketing_effect, update_marketing};
use crate::models::{
    ChainEnv, Coin, ContractResult, PurchaseReceipt, RaffleStatus, TransferInstruction,
    TAX_PCT_DENOM,
};
use crate::msg::{ExecuteMsg, InstantiateMsg, MigrateMsg, QueryAnswer, QueryMsg};
use crate::query::refund_status::refund_status;
use crate::query::select::{select, select_answer};
use crate::query::test_random::{random_answer, test_random};
use crate::state::{
    claimed, config_rejected, initialize, initialized_state, supply_insufficient, ContractState,
};
use crate::distribution::{sum_royalty_pct, sum_tax_pct};

verus! {

/// What one successful operation hands the host: a purchase receipt, a batch
/// of settlement instructions to execute, or nothing beyond the state change.
#[derive(Clone, Debug)]
pub enum ExecuteOutcome {
    Purchase(PurchaseReceipt),
    Settlement(Vec<TransferInstruction>),
    Done,
}

/// Whether one operation goes through on the given state: the disjunction of
/// the per-operation guards, by message kind.
pub open spec fn execute_accepted(
    state: ContractState,
    env: ChainEnv,
    sender: Seq<char>,
    funds: Seq<Coin>,
    token_balance: u128,
    msg: ExecuteMsg,
) -> bool {
    match msg {
        ExecuteMsg::TransferOwnership { .. } => state.owner@ == sender,
        ExecuteMsg::BuyTickets { count, .. } => purchase_accepted(
            state,
            env,
            funds,
            token_balance,
            count,
        ),
        ExecuteMsg::ChooseWinner { .. } => finalize_allowed(state, env, sender),
        ExecuteMsg::Cancel { .. } => cancel_allowed(state, sender),
        ExecuteMsg::ClaimRefund { .. } => refund_allowed(state, sender),
        ExecuteMsg::UpdateMarketing { .. } => state.owner@ == sender,
    }
}

/// Create a raffle: validate the configuration and build its initial state.
pub fn instantiate(env: &ChainEnv, sender: &String, msg: InstantiateMsg) -> (r: ContractResult<
    ContractState,
>)
    requires
        match msg.ticket_supply {
            Some(s) => s as int * msg.price.amount as int <= u128::MAX as int,
            None => true,
        },
    ensures
        r is Err <==> config_rejected(msg),
        supply_insufficient(msg) ==> (r matches Err(ContractError::InsufficientTicketSupply)),
        !supply_insufficient(msg) && msg.assets@.len() == 0 ==> (r matches Err(
            ContractError::ValidationError { reason: Some(t) },
        ) && t@ == "at least one asset is required"@),
        !supply_insufficient(msg) && msg.assets@.len() > 0 && sum_royalty_pct(msg.royalties@) > 100
            ==> (r matches Err(ContractError::ValidationError { reason: Some(t) }) && t@
            == "royalty percentages exceed 100"@),
        !supply_insufficient(msg) && msg.assets@.len() > 0 && sum_royalty_pct(msg.royalties@) <= 100
            && sum_tax_pct(msg.taxes@) > TAX_PCT_DENOM as int ==> (r matches Err(
            ContractError::ValidationError { reason: Some(t) },
        ) && t@ == "tax parts exceed the denominator"@),
        r matches Ok(state) ==> initialized_state(state, *env, sender@, msg),
{
    initialize(env, sender, msg)
}

/// Dispatch one operation: it succeeds exactly when the operation's own guard
/// admits it, a failure leaves the state exactly as it was, and a success has
/// exactly the operation's effect, with its outcome kind.
pub fn execute(
    state: &mut ContractState,
    env: &ChainEnv,
    sender: &String,
    funds: &Vec<Coin>,
    token_balance: u128,
    msg: ExecuteMsg,
) -> (r: ContractResult<ExecuteOutcome>)
    requires
        old(state).wf(),
        // Machine limits, binding only for purchases: without a finite supply
        // nothing else bounds the counters, and a buyer's order counter is 16
        // bits wide.
        match msg {
            ExecuteMsg::BuyTickets { count, .. } => {
                &&& ((old(state).raffle.ticket_supply is None && old(state).raffle.status
                    == RaffleStatus::Active) ==> old(state).raffle.tickets_sold + count
                    <= u32::MAX && (old(state).raffle.tickets_sold + count)
                    * old(state).raffle.price.amount as int <= u128::MAX as int)
                &&& forall|w: int|
                    0 <= w < old(state).wallets@.len() && (#[trigger] old(state).wallets@[w]).0@
                        == sender@ ==> old(state).wallets@[w].1.ticket_order_count < u16::MAX
            },
            _ => true,
        },
    ensures
        final(state).wf(),
        r is Err ==> *final(state) == *old(state),
        r is Ok <==> execute_accepted(*old(state), *env, sender@, funds@, token_balance, msg),
        msg matches ExecuteMsg::BuyTickets { count, message, is_visible } ==> (r is Ok ==> (
        r matches Ok(ExecuteOutcome::Purchase(receipt)) && purchase_effect(
            *old(state),
            *final(state),
            receipt,
            *env,
            *sender,
            count,
            message,
            is_visible,
        ))),
        msg matches ExecuteMsg::ChooseWinner { .. } ==> (r is Ok ==> (r matches Ok(
            ExecuteOutcome::Settlement(instrs),
        ) && finalize_effect(*old(state), *final(state), instrs@, *env, sender@))),
        msg matches ExecuteMsg::Cancel { .. } ==> (r is Ok ==> (r matches Ok(
            ExecuteOutcome::Settlement(instrs),
        ) && cancel_effect(*old(state), *final(state), instrs@))),
        msg matches ExecuteMsg::ClaimRefund { .. } ==> (r is Ok ==> (r matches Ok(
            ExecuteOutcome::Settlement(instrs),
        ) && refund_effect(*old(state), *final(state), instrs@, sender@))),
        msg matches ExecuteMsg::TransferOwnership { new_owner } ==> (r is Ok ==> (r matches Ok(
            ExecuteOutcome::Done,
        ) && ownership_effect(*old(state), *final(state), new_owner))),
        msg matches ExecuteMsg::UpdateMarketing { marketing } ==> (r is Ok ==> (r matches Ok(
            ExecuteOutcome::Done,
        ) && marketing_effect(*old(state), *final(state), marketing))),
{
    match msg {
        ExecuteMsg::TransferOwnership { new_owner } => {
            let outcome = transfer_ownership(state, sender, &new_owner);
            match outcome {
                Ok(_) => Ok(ExecuteOutcome::Done),
                Err(e) => Err(e),
            }
        },
        ExecuteMsg::BuyTickets { count, message, is_visible } => {
            let outcome = buy_tickets(
                state,
                env,
                sender,
                funds,
                token_balance,
                count,
                message,
                is_visible,
            );
            match outcome {
                Ok(receipt) => Ok(ExecuteOutcome::Purchase(receipt)),
                Err(e) => Err(e),
            }
        },
        ExecuteMsg::ChooseWinner {} => {
            let outcome = choose_winner(state, env, sender);
            match outcome {
                Ok(instrs) => Ok(ExecuteOutcome::Settlement(instrs)),
                Err(e) => Err(e),
            }
        },
        ExecuteMsg::Cancel {} => {
            let outcome = cancel(state, sender);
            match outcome {
                Ok(instrs) => Ok(ExecuteOutcome::Settlement(instrs)),
                Err(e) => Err(e),
            }
        },
        ExecuteMsg::ClaimRefund {} => {
            let outcome = claim_refund(state, sender);
            match outcome {
                Ok(instrs) => Ok(ExecuteOutcome::Settlement(instrs)),
                Err(e) => Err(e),
            }
        },
        ExecuteMsg::UpdateMarketing { marketing } => {
            let outcome = update_marketing(state, sender, marketing);
            match outcome {
                Ok(_) => Ok(ExecuteOutcome::Done),
                Err(e) => Err(e),
            }
        },
    }
}

/// Answer one read-only query; queries never touch the state, never fail, and
/// each answer satisfies its query's contract.
pub fn query(state: &ContractState, env: &ChainEnv, msg: QueryMsg) -> (r: ContractResult<
    QueryAnswer,
>)
    requires
        state.wf(),
    ensures
        r is Ok,
        msg matches QueryMsg::Select { fields, .. } ==> (r matches Ok(QueryAnswer::Select(resp))
            && select_answer(*state, fields, resp)),
        msg matches QueryMsg::RefundStatus { claimant } ==> (r matches Ok(
            QueryAnswer::RefundStatus(resp),
        ) && resp.has_claimed == claimed(state.refund_claims@, claimant@)),
        msg matches QueryMsg::Random { .. } ==> (r matches Ok(QueryAnswer::Random(resp))
            && random_answer(*state, *env, resp)),
{
    match msg {
        QueryMsg::Select { fields, wallet } => Ok(
            QueryAnswer::Select(select(state, &fields, &wallet)),
        ),
        QueryMsg::RefundStatus { claimant } => Ok(
            QueryAnswer::RefundStatus(refund_status(state, &claimant)),
        ),
        QueryMsg::Random {} => Ok(QueryAnswer::Random(test_random(state, env))),
    }
}

/// Schema migration: nothing to do at this version.
pub fn migrate(state: &mut ContractState, _msg: &MigrateMsg) -> (r: ContractResult<()>)
    ensures
        r is Ok,
        *final(state) == *old(state),
{
    Ok(())
}

} // verus!
