use vstd::prelude::*;

use crate::error::ContractError;
use crate::models::{
    duplicate_opt_string, ChainEnv, Coin, ContractResult, PurchaseReceipt, RaffleStatus,
    TicketOrder, Token, TokenAmount, WalletMetadata,
};
use crate::seed::purchase_seed;
use crate::state::{
    claimed, find_wallet, has_wallet, lemma_total_wallet_push, lemma_total_wallet_update,
    lemma_wallet_tickets_zero, orders_well_formed, sum_counts, total_wallet_tickets,
    wallet_order_total, wallet_tickets, ContractState,
};

verus! {

/// The message view a purchase mixes into the seed: the buyer's message, or
/// the empty string when none was given.
pub open spec fn message_view(m: Option<String>) -> Seq<char> {
    match m {
        Some(s) => s@,
        None => Seq::empty(),
    }
}

/// Whether the attached funds hold at least `required` of `denom`.
pub open spec fn has_funds_spec(funds: Seq<Coin>, required: int, denom: Seq<char>) -> bool {
    exists|i: int|
        0 <= i < funds.len() && (#[trigger] funds[i]).denom@ == denom && funds[i].amount as int
            >= required
}

/// Whether the buyer can pay `required` units of the price token: for native
/// currency the attached funds must cover it; for a custom token the buyer's
/// balance, as the host queried it, must.
pub open spec fn payment_covered(
    price: TokenAmount,
    funds: Seq<Coin>,
    token_balance: u128,
    required: int,
) -> bool {
    match price.token {
        Token::Native { denom } => has_funds_spec(funds, required, denom@),
        Token::Cw20 { .. } => token_balance as int >= required,
    }
}

/// Whether a finite supply cannot host `count` more tickets.
pub open spec fn supply_blocks(state: ContractState, count: u32) -> bool {
    match state.raffle.ticket_supply {
        Some(s) => s - state.raffle.tickets_sold < count,
        None => false,
    }
}

/// Whether the sales deadline has passed.
pub open spec fn deadline_blocks(state: ContractState, time_nanos: u64) -> bool {
    match state.raffle.ticket_sales_end_at {
        Some(d) => time_nanos >= d,
        None => false,
    }
}

/// Whether a purchase of `count` tickets goes through.
pub open spec fn purchase_accepted(
    state: ContractState,
    env: ChainEnv,
    funds: Seq<Coin>,
    token_balance: u128,
    count: u32,
) -> bool {
    &&& state.raffle.status == RaffleStatus::Active
    &&& count >= 1
    &&& !supply_blocks(state, count)
    &&& !deadline_blocks(state, env.time_nanos)
    &&& payment_covered(
        state.raffle.price,
        funds,
        token_balance,
        count as int * state.raffle.price.amount as int,
    )
}

/// Check the attached funds for `required` of `denom`.
fn has_funds(funds: &Vec<Coin>, required: u128, denom: &String) -> (r: bool)
    ensures
        r == has_funds_spec(funds@, required as int, denom@),
{
    let n = funds.len();
    for i in 0..n
        invariant
            n == funds@.len(),
            forall|j: int|
                0 <= j < i ==> !((#[trigger] funds@[j]).denom@ == denom@ && funds@[j].amount
                    >= required),
    {
        if funds[i].denom == *denom && funds[i].amount >= required {
            return true;
        }
    }
    false
}

/// Appending one order moves each wallet's sums by that order's contribution.
proof fn lemma_wallet_sums_append(orders: Seq<TicketOrder>, o: TicketOrder, addr: Seq<char>)
    ensures
        wallet_tickets(orders.push(o), addr) == wallet_tickets(orders, addr) + (if o.address@
            == addr {
            o.count as int
        } else {
            0
        }),
        wallet_order_total(orders.push(o), addr) == wallet_order_total(orders, addr) + (
        if o.address@ == addr {
            1int
        } else {
            0int
        }),
{
    assert(orders.push(o).drop_last() =~= orders);
}

/// What a successful purchase does: the receipt bills `count` tickets at the
/// unit price, the ledger gains exactly one order carrying the running
/// cumulative count, the buyer's aggregate is created or advanced by exactly
/// that order, the counters move, the seed chain absorbs the purchase, and
/// nothing else changes.
pub open spec fn purchase_effect(
    os: ContractState,
    ns: ContractState,
    receipt: PurchaseReceipt,
    env: ChainEnv,
    sender: String,
    count: u32,
    message: Option<String>,
    is_visible: bool,
) -> bool {
    let sold = os.raffle.tickets_sold as int + count;
    &&& receipt.payment_due as int == count as int * os.raffle.price.amount as int
    &&& receipt.cumulative_count as int == sold
    &&& ns.raffle.tickets_sold as int == sold
    &&& ns.orders@ == os.orders@.push(
        (TicketOrder {
            address: sender,
            count,
            cumulative_count: receipt.cumulative_count,
            is_visible,
            message,
        }),
    )
    &&& ns.raffle.seed == purchase_seed(
        os.raffle.seed,
        message_view(message),
        sender@,
        env.time_nanos,
        env.height,
        env.tx_ordinal_spec(),
    )
    &&& (if claimed_wallet_exists(os, sender@) {
        ns.raffle.wallet_count == os.raffle.wallet_count && (exists|w: int|
            0 <= w < os.wallets@.len() && (#[trigger] os.wallets@[w]).0@ == sender@
                && ns.wallets@ == os.wallets@.update(
                w,
                (
                    os.wallets@[w].0,
                    (WalletMetadata {
                        ticket_count: (os.wallets@[w].1.ticket_count + count) as u32,
                        ticket_order_count: (os.wallets@[w].1.ticket_order_count + 1) as u16,
                        display_message: if is_visible {
                            message
                        } else {
                            None
                        },
                        ..os.wallets@[w].1
                    }),
                ),
            ))
    } else {
        ns.raffle.wallet_count == os.raffle.wallet_count + 1 && ns.wallets@ == os.wallets@.push(
            (
                sender,
                (WalletMetadata {
                    has_agreed_to_terms: true,
                    ticket_order_count: 1,
                    ticket_count: count,
                    address: None,
                    display_message: if is_visible {
                        message
                    } else {
                        None
                    },
                    has_claimed_refund: false,
                }),
            ),
        )
    })
    &&& ns.owner == os.owner
    &&& ns.marketing == os.marketing
    &&& ns.royalties == os.royalties
    &&& ns.taxes == os.taxes
    &&& ns.refund_claims == os.refund_claims
    &&& ns.raffle.price == os.raffle.price
    &&& ns.raffle.assets == os.raffle.assets
    &&& ns.raffle.status == os.raffle.status
    &&& ns.raffle.ticket_supply == os.raffle.ticket_supply
    &&& ns.raffle.ticket_sales_end_at == os.raffle.ticket_sales_end_at
    &&& ns.raffle.ticket_sales_target == os.raffle.ticket_sales_target
    &&& ns.raffle.winner_address == os.raffle.winner_address
}

/// Buy `count` tickets for `sender`. Allowed only while the raffle is
/// `Active`, for at least one ticket, under any finite supply, strictly
/// before any sales deadline, and only when the buyer can pay
/// `count * unit price`. On success the ledger gains one order carrying the
/// running cumulative count, the buyer's aggregate is created or advanced,
/// the counters move, and the seed chain absorbs the purchase; on any guard
/// failure the state is left exactly as it was.
#[verifier::rlimit(50)]
pub fn buy_tickets(
    state: &mut ContractState,
    env: &ChainEnv,
    sender: &String,
    funds: &Vec<Coin>,
    token_balance: u128,
    count: u32,
    message: Option<String>,
    is_visible: bool,
) -> (r: ContractResult<PurchaseReceipt>)
    requires
        old(state).wf(),
        // Machine limits: without a finite supply nothing else bounds the
        // counters, so the caller keeps them inside their types.
        (old(state).raffle.ticket_supply is None && old(state).raffle.status
            == RaffleStatus::Active && !deadline_blocks(*old(state), env.time_nanos)) ==> old(
            state,
        ).raffle.tickets_sold + count <= u32::MAX && (old(state).raffle.tickets_sold + count) * old(
            state,
        ).raffle.price.amount as int <= u128::MAX as int,
        // A buyer's order counter is 16 bits wide; the caller retires wallets
        // that reach it.
        forall|w: int|
            0 <= w < old(state).wallets@.len() && (#[trigger] old(state).wallets@[w]).0@ == sender@
                ==> old(state).wallets@[w].1.ticket_order_count < u16::MAX,
    ensures
        final(state).wf(),
        r is Err ==> *final(state) == *old(state),
        r is Ok <==> purchase_accepted(*old(state), *env, funds@, token_balance, count),
        old(state).raffle.status != RaffleStatus::Active ==> (r matches Err(
            ContractError::NotActive,
        )),
        old(state).raffle.status == RaffleStatus::Active && count == 0 ==> (r matches Err(
            ContractError::SoldOut,
        )),
        old(state).raffle.status == RaffleStatus::Active && count >= 1 && supply_blocks(
            *old(state),
            count,
        ) ==> (r matches Err(ContractError::SoldOut)),
        old(state).raffle.status == RaffleStatus::Active && count >= 1 && !supply_blocks(
            *old(state),
            count,
        ) && deadline_blocks(*old(state), env.time_nanos) ==> (r matches Err(
            ContractError::SalesPeriodOver,
        )),
        old(state).raffle.status == RaffleStatus::Active && count >= 1 && !supply_blocks(
            *old(state),
            count,
        ) && !deadline_blocks(*old(state), env.time_nanos) && !payment_covered(
            old(state).raffle.price,
            funds@,
            token_balance,
            count as int * old(state).raffle.price.amount as int,
        ) ==> (r matches Err(ContractError::MissingFunds)),
        r matches Ok(receipt) ==> purchase_effect(
            *old(state),
            *final(state),
            receipt,
            *env,
            *sender,
            count,
            message,
            is_visible,
        ),
{
    if !matches!(state.raffle.status, RaffleStatus::Active) {
        return Err(ContractError::NotActive);
    }
    if count == 0 {
        return Err(ContractError::SoldOut);
    }
    if let Some(supply) = state.raffle.ticket_supply {
        let remaining = supply - state.raffle.tickets_sold;
        if remaining < count {
            return Err(ContractError::SoldOut);
        }
    }
    if let Some(deadline) = state.raffle.ticket_sales_end_at {
        if env.time_nanos >= deadline {
            return Err(ContractError::SalesPeriodOver);
        }
    }

    proof {
        let price = state.raffle.price.amount as int;
        let c = count as int;
        let sold = state.raffle.tickets_sold as int;
        match state.raffle.ticket_supply {
            Some(su) => {
                let s = su as int;
                assert(c * price <= u128::MAX as int && (sold + c) * price
                    <= u128::MAX as int) by (nonlinear_arith)
                    requires
                        0 <= c,
                        0 <= sold,
                        sold + c <= s,
                        0 <= price,
                        s * price <= u128::MAX as int,
                ;
            },
            None => {
                assert(c * price <= u128::MAX as int) by (nonlinear_arith)
                    requires
                        0 <= c,
                        0 <= sold,
                        0 <= price,
                        (sold + c) * price <= u128::MAX as int,
                ;
            },
        }
    }
    let balance_required: u128 = (count as u128) * state.raffle.price.amount;

    let covered = match &state.raffle.price.token {
        Token::Native { denom } => has_funds(funds, balance_required, denom),
        Token::Cw20 { .. } => token_balance >= balance_required,
    };
    if !covered {
        return Err(ContractError::MissingFunds);
    }

    let ghost os = *state;

    // Chain the seed with this purchase's entropy.
    let message_str = match &message {
        Some(s) => s.as_str(),
        None => "",
    };
    proof {
        if message is None {
            reveal_strlit("");
            assert(message_str@ =~= message_view(message));
        }
    }
    let new_seed = crate::seed::seed_for_purchase(
        state.raffle.seed,
        message_str,
        sender.as_str(),
        env,
    );

    // Append the order with the advanced cumulative count.
    let new_sold = state.raffle.tickets_sold + count;
    let order = TicketOrder {
        address: sender.clone(),
        count,
        cumulative_count: new_sold,
        is_visible,
        message: duplicate_opt_string(&message),
    };
    let ghost order_g = order;
    state.orders.push(order);
    proof {
        assert(state.orders@.drop_last() =~= os.orders@);
        if os.orders@.len() > 0 {
            let n = os.orders@.len() as int;
            assert(os.orders@.take(n) =~= os.orders@);
            assert(os.orders@[n - 1].cumulative_count as int == sum_counts(os.orders@.take(n)));
            assert(sum_counts(os.orders@) == os.raffle.tickets_sold as int);
        } else {
            assert(sum_counts(os.orders@) == 0);
        }
        assert forall|i: int|
            0 <= i < state.orders@.len() implies ((#[trigger] state.orders@[i]).count >= 1
            && state.orders@[i].cumulative_count as int == sum_counts(
            state.orders@.take(i + 1),
        )) by {
            if i < os.orders@.len() {
                assert(state.orders@.take(i + 1) =~= os.orders@.take(i + 1));
                assert(state.orders@[i] == os.orders@[i]);
            } else {
                assert(state.orders@.take(i + 1) =~= state.orders@);
                assert(sum_counts(state.orders@) == sum_counts(os.orders@) + count);
            }
        }
    }

    // Create or advance the buyer's aggregate.
    let display_message = if is_visible {
        duplicate_opt_string(&message)
    } else {
        None
    };
    let found = find_wallet(&state.wallets, sender);
    match found {
        Some(w) => {
            let entry = state.wallets.remove(w);
            let key = entry.0;
            let meta = entry.1;
            let new_meta = WalletMetadata {
                has_agreed_to_terms: meta.has_agreed_to_terms,
                ticket_order_count: meta.ticket_order_count + 1,
                ticket_count: meta.ticket_count + count,
                address: meta.address,
                display_message,
                has_claimed_refund: meta.has_claimed_refund,
            };
            state.wallets.insert(w, (key, new_meta));
            proof {
                assert(state.wallets@ =~= os.wallets@.update(
                    w as int,
                    (os.wallets@[w as int].0, new_meta),
                ));
            }
        },
        None => {
            let new_meta = WalletMetadata {
                has_agreed_to_terms: true,
                ticket_order_count: 1,
                ticket_count: count,
                address: None,
                display_message,
                has_claimed_refund: false,
            };
            state.wallets.push((sender.clone(), new_meta));
            state.raffle.wallet_count = state.raffle.wallet_count + 1;
        },
    }

    state.raffle.tickets_sold = new_sold;
    state.raffle.seed = new_seed;

    proof {
        lemma_buy_preserves_wf(os, *state, order_g, found, count, sender@);
    }

    Ok(PurchaseReceipt { payment_due: balance_required, cumulative_count: new_sold })
}

/// Whether `sender` already holds an aggregate entry.
pub open spec fn claimed_wallet_exists(state: ContractState, addr: Seq<char>) -> bool {
    exists|w: int| 0 <= w < state.wallets@.len() && (#[trigger] state.wallets@[w]).0@ == addr
}

/// The aggregate bookkeeping of one purchase preserves well-formedness: the
/// appended order is reflected in exactly one wallet's sums and in the
/// totals, and every other wallet's sums are untouched.
proof fn lemma_buy_preserves_wf(
    os: ContractState,
    ns: ContractState,
    o: TicketOrder,
    found: Option<usize>,
    count: u32,
    sender: Seq<char>,
)
    requires
        os.wf(),
        os.raffle.status == RaffleStatus::Active,
        count >= 1,
        o.address@ == sender,
        o.count == count,
        o.cumulative_count as int == os.raffle.tickets_sold as int + count,
        ns.orders@ == os.orders@.push(o),
        orders_well_formed(ns.orders@),
        ns.raffle.tickets_sold as int == os.raffle.tickets_sold as int + count,
        ns.raffle.tickets_sold as int * ns.raffle.price.amount as int <= u128::MAX as int,
        ns.raffle.price == os.raffle.price,
        ns.raffle.ticket_supply == os.raffle.ticket_supply,
        ns.raffle.status == os.raffle.status,
        ns.raffle.winner_address == os.raffle.winner_address,
        ns.refund_claims == os.refund_claims,
        ns.royalties == os.royalties,
        ns.taxes == os.taxes,
        match os.raffle.ticket_supply {
            Some(s) => ns.raffle.tickets_sold <= s,
            None => true,
        },
        match found {
            Some(w) => {
                &&& (w as int) < os.wallets@.len()
                &&& os.wallets@[w as int].0@ == sender
                &&& ns.raffle.wallet_count == os.raffle.wallet_count
                &&& ns.wallets@.len() == os.wallets@.len()
                &&& ns.wallets@ == os.wallets@.update(
                    w as int,
                    (
                        os.wallets@[w as int].0,
                        (WalletMetadata {
                            ticket_count: (os.wallets@[w as int].1.ticket_count + count) as u32,
                            ticket_order_count: (os.wallets@[w as int].1.ticket_order_count
                                + 1) as u16,
                            display_message: ns.wallets@[w as int].1.display_message,
                            ..os.wallets@[w as int].1
                        }),
                    ),
                )
                &&& os.wallets@[w as int].1.ticket_order_count < u16::MAX
            },
            None => {
                &&& (forall|j: int|
                    0 <= j < os.wallets@.len() ==> (#[trigger] os.wallets@[j].0@) != sender)
                &&& ns.raffle.wallet_count as int == os.raffle.wallet_count as int + 1
                &&& ns.wallets@ == os.wallets@.push(
                    (
                        ns.wallets@.last().0,
                        (WalletMetadata {
                            has_agreed_to_terms: true,
                            ticket_order_count: 1,
                            ticket_count: count,
                            address: None,
                            display_message: ns.wallets@.last().1.display_message,
                            has_claimed_refund: false,
                        }),
                    ),
                )
                &&& ns.wallets@.last().0@ == sender
            },
        },
    ensures
        ns.wf(),
{
    assert(sum_counts(ns.orders@) == sum_counts(os.orders@) + count) by {
        assert(ns.orders@.drop_last() =~= os.orders@);
    }
    assert(ns.raffle.tickets_sold as int == sold_total_of(ns));

    assert forall|a: Seq<char>|
        true implies #[trigger] wallet_tickets(ns.orders@, a) == wallet_tickets(os.orders@, a) + (
    if a == sender {
        count as int
    } else {
        0int
    }) && wallet_order_total(ns.orders@, a) == wallet_order_total(os.orders@, a) + (if a == sender {
        1int
    } else {
        0int
    }) by {
        lemma_wallet_sums_append(os.orders@, o, a);
    }

    // Every order's buyer still holds an aggregate entry: the old entries
    // kept their keys, and the new order's buyer just got one.
    assert forall|i: int|
        0 <= i < ns.orders@.len() implies has_wallet(
        ns.wallets@,
        (#[trigger] ns.orders@[i]).address@,
    ) by {
        if i < os.orders@.len() {
            assert(ns.orders@[i] == os.orders@[i]);
            let wit = choose|w: int|
                0 <= w < os.wallets@.len() && (#[trigger] os.wallets@[w]).0@
                    == os.orders@[i].address@;
            assert(ns.wallets@[wit].0 == os.wallets@[wit].0);
        } else {
            assert(ns.orders@[i] == o);
            match found {
                Some(w) => {
                    assert(ns.wallets@[w as int].0@ == sender);
                },
                None => {
                    assert(ns.wallets@[ns.wallets@.len() - 1].0@ == sender);
                },
            }
        }
    }

    // A buyer with no aggregate entry has no prior orders.
    if found is None {
        assert forall|i: int|
            0 <= i < os.orders@.len() implies (#[trigger] os.orders@[i]).address@ != sender by {
            if os.orders@[i].address@ == sender {
                let wit = choose|w: int|
                    0 <= w < os.wallets@.len() && (#[trigger] os.wallets@[w]).0@
                        == os.orders@[i].address@;
                assert(os.wallets@[wit].0@ != sender);
            }
        }
        lemma_wallet_tickets_zero(os.orders@, sender);
    }

    // The per-wallet aggregates are right again: the buyer's entry moved by
    // exactly the order's contribution, every other entry's sums are
    // untouched because its key differs from the buyer's.
    assert forall|v: int|
        0 <= v < ns.wallets@.len() implies {
        let a = (#[trigger] ns.wallets@[v]).0@;
        let m = ns.wallets@[v].1;
        &&& m.ticket_count as int == wallet_tickets(ns.orders@, a)
        &&& m.ticket_order_count as int == wallet_order_total(ns.orders@, a)
        &&& m.ticket_order_count >= 1
        &&& m.ticket_count <= ns.raffle.tickets_sold
        &&& m.has_claimed_refund == claimed(ns.refund_claims@, a)
    } by {
        match found {
            Some(w) => {
                if v == w as int {
                    assert(ns.wallets@[v].0 == os.wallets@[v].0);
                    assert(os.wallets@[v].1.ticket_count as int == wallet_tickets(os.orders@,
                        sender));
                    assert(ns.wallets@[v].1.ticket_count as int == os.wallets@[v].1.ticket_count
                        + count);
                    assert(wallet_tickets(ns.orders@, sender) == wallet_tickets(os.orders@, sender)
                        + count);
                    assert(ns.wallets@[v].0@ == sender);
                    assert(ns.wallets@[v].1.ticket_count as int == wallet_tickets(
                        ns.orders@,
                        ns.wallets@[v].0@,
                    ));
                    assert(ns.wallets@[v].1.ticket_order_count as int == wallet_order_total(
                        ns.orders@,
                        ns.wallets@[v].0@,
                    ));
                    assert(ns.wallets@[v].1.ticket_count <= ns.raffle.tickets_sold);
                    assert(ns.wallets@[v].1.has_claimed_refund == claimed(
                        ns.refund_claims@,
                        ns.wallets@[v].0@,
                    ));
                } else {
                    assert(ns.wallets@[v] == os.wallets@[v]);
                    if v < w as int {
                        assert(os.wallets@[v].0@ != os.wallets@[w as int].0@);
                    } else {
                        assert(os.wallets@[w as int].0@ != os.wallets@[v].0@);
                    }
                }
            },
            None => {
                if v < os.wallets@.len() {
                    assert(ns.wallets@[v] == os.wallets@[v]);
                    assert(os.wallets@[v].0@ != sender);
                } else {
                    assert(ns.wallets@[v] == ns.wallets@.last());
                    assert(claimed(ns.refund_claims@, sender) == false);
                }
            },
        }
    }

    // Keys are still unique: they are the old keys, possibly plus the
    // buyer's, which matched none of them.
    assert forall|i: int, j: int|
        0 <= i < j < ns.wallets@.len() implies (#[trigger] ns.wallets@[i].0@) != (
    #[trigger] ns.wallets@[j].0@) by {
        match found {
            Some(w) => {
                assert(ns.wallets@[i].0 == os.wallets@[i].0);
                assert(ns.wallets@[j].0 == os.wallets@[j].0);
                assert(os.wallets@[i].0@ != os.wallets@[j].0@);
            },
            None => {
                if j < os.wallets@.len() {
                    assert(ns.wallets@[i].0 == os.wallets@[i].0);
                    assert(ns.wallets@[j].0 == os.wallets@[j].0);
                    assert(os.wallets@[i].0@ != os.wallets@[j].0@);
                } else {
                    assert(ns.wallets@[i].0 == os.wallets@[i].0);
                    assert(os.wallets@[i].0@ != sender);
                }
            },
        }
    }

    match found {
        Some(w) => {
            lemma_total_wallet_update(os.wallets@, w as int, ns.wallets@[w as int]);
        },
        None => {
            lemma_total_wallet_push(os.wallets@, ns.wallets@.last());
            assert(ns.wallets@.drop_last() =~= os.wallets@);
        },
    }
}

/// Tickets sold as the ledger's last cumulative count.
pub open spec fn sold_total_of(state: ContractState) -> int {
    crate::state::sold_total(state.orders@)
}

} // verus!
