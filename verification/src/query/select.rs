use vstd::prelude::*;

use vstd::seq_lib::group_to_multiset_ensures;

use crate::models::{
    marketing_equal, raffle_equal, RoyaltyRecipient, TicketOrder, WalletMetadata,
};
use crate::msg::SelectResponse;
use crate::state::ContractState;

verus! {

/// Whether a query that names `fields` asked for `name`. A query that names
/// none asked for everything.
pub open spec fn field_selected(fields: Option<Vec<String>>, name: Seq<char>) -> bool {
    match fields {
        None => true,
        Some(fs) => exists|i: int| 0 <= i < fs@.len() && (#[trigger] fs@[i])@ == name,
    }
}

fn wants(fields: &Option<Vec<String>>, name: &String) -> (r: bool)
    ensures
        r == field_selected(*fields, name@),
{
    match fields {
        None => true,
        Some(fs) => {
            let n = fs.len();
            for i in 0..n
                invariant
                    n == fs@.len(),
                    *fields is Some,
                    fields->0 == *fs,
                    forall|j: int| 0 <= j < i ==> (#[trigger] fs@[j])@ != name@,
            {
                if fs[i] == *name {
                    proof {
                        assert((fields->0)@[i as int]@ == name@);
                    }
                    return true;
                }
            }
            false
        },
    }
}

/// The wallet view an aggregate entry is shown as: the stored record with its
/// key filled into the address field.
pub open spec fn wallet_view(pair: (String, WalletMetadata)) -> WalletMetadata {
    WalletMetadata { address: Some(pair.0), ..pair.1 }
}

/// Build each entry's display view.
fn build_wallet_views(wallets: &Vec<(String, WalletMetadata)>) -> (r: Vec<WalletMetadata>)
    ensures
        r@.len() == wallets@.len(),
        forall|i: int| 0 <= i < r@.len() ==> #[trigger] r@[i] == wallet_view(wallets@[i]),
{
    let n = wallets.len();
    let mut out: Vec<WalletMetadata> = Vec::new();
    for i in 0..n
        invariant
            n == wallets@.len(),
            out@.len() == i,
            forall|j: int| 0 <= j < i ==> #[trigger] out@[j] == wallet_view(wallets@[j]),
    {
        let m = wallets[i].1.duplicate();
        out.push(
            WalletMetadata {
                has_agreed_to_terms: m.has_agreed_to_terms,
                ticket_order_count: m.ticket_order_count,
                ticket_count: m.ticket_count,
                address: Some(wallets[i].0.clone()),
                display_message: m.display_message,
                has_claimed_refund: m.has_claimed_refund,
            },
        );
    }
    out
}

/// Sort wallet views by ticket count, largest first, by repeatedly moving a
/// maximal remaining view to the output: the result is a rearrangement of the
/// input.
fn sort_wallet_views_desc(views: Vec<WalletMetadata>) -> (r: Vec<WalletMetadata>)
    ensures
        r@.len() == views@.len(),
        forall|i: int, j: int|
            0 <= i <= j < r@.len() ==> (#[trigger] r@[i]).ticket_count >= (
            #[trigger] r@[j]).ticket_count,
        r@.to_multiset() == views@.to_multiset(),
{
    broadcast use group_to_multiset_ensures;

    let ghost orig = views@;
    let mut rem = views;
    let mut out: Vec<WalletMetadata> = Vec::new();
    while rem.len() > 0
        invariant
            out@.len() + rem@.len() == orig.len(),
            out@.to_multiset().add(rem@.to_multiset()) =~= orig.to_multiset(),
            forall|i: int, j: int|
                0 <= i <= j < out@.len() ==> (#[trigger] out@[i]).ticket_count >= (
                #[trigger] out@[j]).ticket_count,
            forall|i: int, j: int|
                0 <= i < out@.len() && 0 <= j < rem@.len() ==> (#[trigger] out@[i]).ticket_count
                    >= (#[trigger] rem@[j]).ticket_count,
        decreases rem@.len(),
    {
        let n = rem.len();
        let mut best: usize = 0;
        for k in 1..n
            invariant
                n == rem@.len(),
                best < k,
                k <= n,
                forall|j: int|
                    0 <= j < k ==> (#[trigger] rem@[j]).ticket_count
                        <= rem@[best as int].ticket_count,
        {
            if rem[k].ticket_count > rem[best].ticket_count {
                best = k;
            }
        }
        let ghost rem_before = rem@;
        let ghost out_before = out@;
        let picked = rem.remove(best);
        out.push(picked);
        proof {
            rem_before.to_multiset_ensures();
            out_before.to_multiset_ensures();
            assert(rem@ == rem_before.remove(best as int));
            assert(out@ == out_before.push(picked));
            assert(rem@.to_multiset() =~= rem_before.to_multiset().remove(rem_before[best as int]));
            assert(out@.to_multiset() =~= out_before.to_multiset().insert(rem_before[best as int]));
            assert(rem_before.contains(rem_before[best as int]));
            assert(out@.to_multiset().add(rem@.to_multiset()) =~= orig.to_multiset());
        }
    }
    proof {
        assert(rem@.to_multiset().len() == 0);
        assert(out@.to_multiset() =~= out@.to_multiset().add(rem@.to_multiset()));
    }
    out
}

/// Duplicate the ledger for the response.
fn duplicate_orders(orders: &Vec<TicketOrder>) -> (r: Vec<TicketOrder>)
    ensures
        r@ == orders@,
{
    let n = orders.len();
    let mut out: Vec<TicketOrder> = Vec::new();
    for i in 0..n
        invariant
            n == orders@.len(),
            out@.len() == i,
            forall|j: int| 0 <= j < i ==> #[trigger] out@[j] == orders@[j],
    {
        out.push(orders[i].duplicate());
    }
    proof {
        assert(out@ =~= orders@);
    }
    out
}

/// Duplicate the royalty list for the response.
fn duplicate_royalties(royalties: &Vec<RoyaltyRecipient>) -> (r: Vec<RoyaltyRecipient>)
    ensures
        r@ == royalties@,
{
    let n = royalties.len();
    let mut out: Vec<RoyaltyRecipient> = Vec::new();
    for i in 0..n
        invariant
            n == royalties@.len(),
            out@.len() == i,
            forall|j: int| 0 <= j < i ==> #[trigger] out@[j] == royalties@[j],
    {
        out.push(royalties[i].duplicate());
    }
    proof {
        assert(out@ =~= royalties@);
    }
    out
}

/// What the state query answers: each named piece of state (or all of them,
/// when the query names none) is present exactly when selected and carries
/// the state's data; the wallet views are a rearrangement of the aggregates,
/// addresses filled in, ordered by largest holding first.
pub open spec fn select_answer(
    state: ContractState,
    fields: Option<Vec<String>>,
    r: SelectResponse,
) -> bool {
    &&& (r.owner matches Some(o) ==> o@ == state.owner@)
    &&& (r.owner is Some) == field_selected(fields, "owner"@)
    &&& (r.raffle matches Some(rf) ==> raffle_equal(rf, state.raffle))
    &&& (r.raffle is Some) == field_selected(fields, "raffle"@)
    &&& (r.marketing matches Some(m) ==> marketing_equal(m, state.marketing))
    &&& (r.marketing is Some) == field_selected(fields, "marketing"@)
    &&& (r.orders matches Some(os) ==> os@ == state.orders@)
    &&& (r.orders is Some) == field_selected(fields, "orders"@)
    &&& (r.royalties matches Some(rs) ==> rs@ == state.royalties@)
    &&& (r.royalties is Some) == field_selected(fields, "royalties"@)
    &&& (r.wallets is Some) == field_selected(fields, "wallets"@)
    &&& (r.wallets matches Some(ws) ==> {
        &&& ws@.len() == state.wallets@.len()
        &&& forall|i: int, j: int|
            0 <= i <= j < ws@.len() ==> (#[trigger] ws@[i]).ticket_count >= (
            #[trigger] ws@[j]).ticket_count
        &&& ws@.to_multiset() == state.wallets@.map_values(
            |p: (String, WalletMetadata)| wallet_view(p),
        ).to_multiset()
    })
}

/// Answer the state query: each named piece of state (or all of them, when
/// the query names none) copied out, and the wallet views ordered by largest
/// holding first.
pub fn select(state: &ContractState, fields: &Option<Vec<String>>, _wallet: &Option<String>) -> (r:
    SelectResponse)
    ensures
        select_answer(*state, *fields, r),
{
    let owner = if wants(fields, &String::from_str("owner")) {
        Some(state.owner.clone())
    } else {
        None
    };
    let raffle = if wants(fields, &String::from_str("raffle")) {
        Some(state.raffle.duplicate())
    } else {
        None
    };
    let marketing = if wants(fields, &String::from_str("marketing")) {
        Some(state.marketing.duplicate())
    } else {
        None
    };
    let orders = if wants(fields, &String::from_str("orders")) {
        Some(duplicate_orders(&state.orders))
    } else {
        None
    };
    let royalties = if wants(fields, &String::from_str("royalties")) {
        Some(duplicate_royalties(&state.royalties))
    } else {
        None
    };
    let wallets = if wants(fields, &String::from_str("wallets")) {
        let views = build_wallet_views(&state.wallets);
        proof {
            assert(views@ =~= state.wallets@.map_values(
                |p: (String, WalletMetadata)| wallet_view(p),
            ));
        }
        Some(sort_wallet_views_desc(views))
    } else {
        None
    };
    SelectResponse { owner, raffle, marketing, orders, wallets, royalties }
}

} // verus!
