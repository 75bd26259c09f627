use vstd::prelude::*;

use crate::error::ContractError;
use crate::models::{ContractResult, RaffleStatus, TransferInstruction, WalletMetadata};
use crate::state::{
    claimed, find_wallet, has_wallet, lemma_claimed_push, lemma_total_wallet_update, ContractState,
};

verus! {

/// Whether a refund claim goes through: only a canceled raffle refunds, only
/// a wallet that holds an aggregate — one that actually bought — may claim,
/// and only once.
pub open spec fn refund_allowed(state: ContractState, sender: Seq<char>) -> bool {
    &&& state.raffle.status == RaffleStatus::Canceled
    &&& !claimed(state.refund_claims@, sender)
    &&& has_wallet(state.wallets@, sender)
}

/// What a successful refund does: the claim is recorded once, the one
/// matching aggregate is flagged, one instruction refunds the wallet's whole
/// holding at the unit price, and nothing else moves.
pub open spec fn refund_effect(
    os: ContractState,
    ns: ContractState,
    instrs: Seq<TransferInstruction>,
    sender: Seq<char>,
) -> bool {
    &&& ns.refund_claims@.len() == os.refund_claims@.len() + 1
    &&& ns.refund_claims@.drop_last() == os.refund_claims@
    &&& ns.refund_claims@.last()@ == sender
    &&& ns.raffle == os.raffle
    &&& ns.owner == os.owner
    &&& ns.orders == os.orders
    &&& ns.royalties == os.royalties
    &&& ns.taxes == os.taxes
    &&& ns.marketing == os.marketing
    &&& exists|w: int|
        0 <= w < os.wallets@.len() && (#[trigger] os.wallets@[w]).0@ == sender && {
            &&& ns.wallets@ == os.wallets@.update(
                w,
                (
                    os.wallets@[w].0,
                    (WalletMetadata { has_claimed_refund: true, ..os.wallets@[w].1 }),
                ),
            )
            &&& instrs.len() == 1
            &&& instrs[0].amount as int == os.wallets@[w].1.ticket_count as int
                * os.raffle.price.amount as int
            &&& instrs[0].recipient@ == sender
            &&& instrs[0].token == os.raffle.price.token
        }
}

/// Claim the refund of one wallet's ticket payments. Only a canceled raffle
/// refunds; the claimant must hold an aggregate — it must have bought — and
/// may claim at most once: a repeat fails `AlreadyClaimed`, a claimant that
/// never bought fails with nothing recorded. The refund is the wallet's whole
/// holding at the unit price, as one transfer instruction.
pub fn claim_refund(state: &mut ContractState, sender: &String) -> (r: ContractResult<
    Vec<TransferInstruction>,
>)
    requires
        old(state).wf(),
    ensures
        final(state).wf(),
        r is Err ==> *final(state) == *old(state),
        old(state).raffle.status != RaffleStatus::Canceled ==> (r matches Err(
            ContractError::NotAuthorized,
        )),
        old(state).raffle.status == RaffleStatus::Canceled && claimed(
            old(state).refund_claims@,
            sender@,
        ) ==> (r matches Err(ContractError::AlreadyClaimed)),
        old(state).raffle.status == RaffleStatus::Canceled && !claimed(
            old(state).refund_claims@,
            sender@,
        ) && !has_wallet(old(state).wallets@, sender@) ==> (r matches Err(
            ContractError::NotAuthorized,
        )),
        r is Ok <==> refund_allowed(*old(state), sender@),
        r matches Ok(instrs) ==> refund_effect(*old(state), *final(state), instrs@, sender@),
{
    if !matches!(state.raffle.status, RaffleStatus::Canceled) {
        return Err(ContractError::NotAuthorized);
    }
    if crate::state::has_claimed(&state.refund_claims, sender) {
        return Err(ContractError::AlreadyClaimed);
    }

    let ghost os = *state;

    let found = find_wallet(&state.wallets, sender);
    let w = match found {
        Some(w) => w,
        None => {
            // No aggregate: the sender never bought, so there is nothing to
            // refund and nothing is recorded.
            return Err(ContractError::NotAuthorized);
        },
    };

    let entry = state.wallets.remove(w);
    let key = entry.0;
    let meta = entry.1;
    if meta.has_claimed_refund {
        // The aggregate flag mirrors the claim list, which was clear, so
        // this branch cannot be reached; it stays as defense.
        proof {
            assert(os.wallets@[w as int].1.has_claimed_refund == claimed(
                os.refund_claims@,
                os.wallets@[w as int].0@,
            ));
            assert(false);
        }
        return Err(ContractError::AlreadyClaimed);
    }
    proof {
        let tc = meta.ticket_count as int;
        let sold = state.raffle.tickets_sold as int;
        let price = state.raffle.price.amount as int;
        assert(tc * price <= u128::MAX as int) by (nonlinear_arith)
            requires
                0 <= tc <= sold,
                0 <= price,
                sold * price <= u128::MAX as int,
    ;
    }
    let refund_amount: u128 = (meta.ticket_count as u128) * state.raffle.price.amount;
    let new_meta = WalletMetadata {
        has_agreed_to_terms: meta.has_agreed_to_terms,
        ticket_order_count: meta.ticket_order_count,
        ticket_count: meta.ticket_count,
        address: meta.address,
        display_message: meta.display_message,
        has_claimed_refund: true,
    };
    state.wallets.insert(w, (key, new_meta));
    let mut instrs: Vec<TransferInstruction> = Vec::new();
    instrs.push(
        TransferInstruction {
            recipient: sender.clone(),
            token: state.raffle.price.token.duplicate(),
            amount: refund_amount,
        },
    );
    proof {
        assert(state.wallets@ =~= os.wallets@.update(
            w as int,
            (os.wallets@[w as int].0, new_meta),
        ));
    }

    state.refund_claims.push(sender.clone());

    proof {
        lemma_claim_preserves_wf(os, *state, w as int, sender@);
        assert(state.refund_claims@.drop_last() =~= os.refund_claims@);
    }

    Ok(instrs)
}

/// Recording one claim and flagging the one matching aggregate keeps the
/// state well formed: sums are untouched, the claim list stays duplicate
/// free, and every aggregate's refund flag still mirrors the claim list.
proof fn lemma_claim_preserves_wf(os: ContractState, ns: ContractState, w: int, sender: Seq<char>)
    requires
        os.wf(),
        os.raffle.status == RaffleStatus::Canceled,
        !claimed(os.refund_claims@, sender),
        ns.raffle == os.raffle,
        ns.orders == os.orders,
        ns.royalties == os.royalties,
        ns.taxes == os.taxes,
        exists|s: String|
            (#[trigger] s@) == sender && ns.refund_claims@ == os.refund_claims@.push(s),
        0 <= w < os.wallets@.len(),
        os.wallets@[w].0@ == sender,
        ns.wallets@ == os.wallets@.update(
            w,
            (os.wallets@[w].0, (WalletMetadata { has_claimed_refund: true, ..os.wallets@[w].1 })),
        ),
    ensures
        ns.wf(),
{
    let s = choose|s: String|
        (#[trigger] s@) == sender && ns.refund_claims@ == os.refund_claims@.push(s);

    // The claim list stays duplicate free: the sender was not on it.
    assert forall|i: int, j: int|
        0 <= i < j < ns.refund_claims@.len() implies (#[trigger] ns.refund_claims@[i]@) != (
    #[trigger] ns.refund_claims@[j]@) by {
        if j < os.refund_claims@.len() {
            assert(ns.refund_claims@[i] == os.refund_claims@[i]);
            assert(ns.refund_claims@[j] == os.refund_claims@[j]);
        } else {
            assert(ns.refund_claims@[i] == os.refund_claims@[i]);
            assert(ns.refund_claims@[j]@ == sender);
            if os.refund_claims@[i]@ == sender {
                assert(claimed(os.refund_claims@, sender));
            }
        }
    }

    // Every aggregate's refund flag still mirrors the claim list.
    assert forall|v: int|
        0 <= v < ns.wallets@.len() implies {
        let a = (#[trigger] ns.wallets@[v]).0@;
        let m = ns.wallets@[v].1;
        &&& m.ticket_count as int == crate::state::wallet_tickets(ns.orders@, a)
        &&& m.ticket_order_count as int == crate::state::wallet_order_total(ns.orders@, a)
        &&& m.ticket_order_count >= 1
        &&& m.ticket_count <= ns.raffle.tickets_sold
        &&& m.has_claimed_refund == claimed(ns.refund_claims@, a)
    } by {
        lemma_claimed_push(os.refund_claims@, s, ns.wallets@[v].0@);
        if v == w {
            assert(ns.wallets@[v].0 == os.wallets@[v].0);
        } else {
            assert(ns.wallets@[v] == os.wallets@[v]);
            if v < w {
                assert(os.wallets@[v].0@ != os.wallets@[w].0@);
            } else {
                assert(os.wallets@[w].0@ != os.wallets@[v].0@);
            }
        }
    }

    // Keys and sums are untouched.
    assert forall|i: int, j: int|
        0 <= i < j < ns.wallets@.len() implies (#[trigger] ns.wallets@[i].0@) != (
    #[trigger] ns.wallets@[j].0@) by {
        assert(ns.wallets@[i].0 == os.wallets@[i].0);
        assert(ns.wallets@[j].0 == os.wallets@[j].0);
        assert(os.wallets@[i].0@ != os.wallets@[j].0@);
    }
    lemma_total_wallet_update(os.wallets@, w, ns.wallets@[w]);
    assert forall|i: int|
        0 <= i < ns.orders@.len() implies has_wallet(
        ns.wallets@,
        (#[trigger] ns.orders@[i]).address@,
    ) by {
        let wit = choose|u: int|
            0 <= u < os.wallets@.len() && (#[trigger] os.wallets@[u]).0@
                == os.orders@[i].address@;
        assert(ns.wallets@[wit].0 == os.wallets@[wit].0);
    }
}

} // verus!
