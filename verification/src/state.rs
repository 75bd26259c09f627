use vstd::prelude::*;

use crate::distribution::{sum_royalty_pct, sum_tax_pct};
use crate::error::ContractError;
use crate::models::{
    ChainEnv, ContractResult, Raffle, RaffleMarketingInfo, RaffleStatus, RoyaltyRecipient,
    TaxBeneficiary, TicketOrder, WalletMetadata, TAX_PCT_DENOM,
};
use crate::msg::InstantiateMsg;
use crate::seed::initial_seed;
use crate::seed::seed_for_creation;

verus! {

// The whole persisted state of one raffle, as the engine sees it: the
// singleton raffle record, the append-only order ledger, the per-wallet
// aggregates, the refund claims, and the immutable payout configuration. The
// hosting environment owns persistence; it hands the state in, and commits it
// back only when the invocation succeeded.

/// The running sum of order counts over the ledger.
pub open spec fn sum_counts(orders: Seq<TicketOrder>) -> int
    decreases orders.len(),
{
    if orders.len() == 0 {
        0
    } else {
        sum_counts(orders.drop_last()) + orders.last().count
    }
}

/// Orders are well formed when every order sells at least one ticket and each
/// order's cumulative count is the running sum of counts through and
/// including it. This is the ledger's load-bearing invariant: cumulative
/// counts increase strictly along the ledger, and every order owns the
/// non-empty half-open ticket interval
/// `[cumulative_count - count, cumulative_count)`.
pub open spec fn orders_well_formed(orders: Seq<TicketOrder>) -> bool {
    forall|i: int|
        0 <= i < orders.len() ==> ((#[trigger] orders[i]).count >= 1
            && orders[i].cumulative_count as int == sum_counts(orders.take(i + 1)))
}

/// Tickets sold through the whole ledger: the last cumulative count.
pub open spec fn sold_total(orders: Seq<TicketOrder>) -> int {
    if orders.len() == 0 {
        0
    } else {
        orders.last().cumulative_count as int
    }
}

/// Tickets one buyer holds: the sum of that buyer's order counts.
pub open spec fn wallet_tickets(orders: Seq<TicketOrder>, addr: Seq<char>) -> int
    decreases orders.len(),
{
    if orders.len() == 0 {
        0
    } else {
        wallet_tickets(orders.drop_last(), addr) + (if orders.last().address@ == addr {
            orders.last().count as int
        } else {
            0
        })
    }
}

/// How many orders one buyer has placed.
pub open spec fn wallet_order_total(orders: Seq<TicketOrder>, addr: Seq<char>) -> int
    decreases orders.len(),
{
    if orders.len() == 0 {
        0
    } else {
        wallet_order_total(orders.drop_last(), addr) + (if orders.last().address@ == addr {
            1int
        } else {
            0int
        })
    }
}

/// Sum of the per-wallet aggregate ticket counts.
pub open spec fn total_wallet_tickets(ws: Seq<(String, WalletMetadata)>) -> int
    decreases ws.len(),
{
    if ws.len() == 0 {
        0
    } else {
        total_wallet_tickets(ws.drop_last()) + ws.last().1.ticket_count
    }
}

/// Whether `addr` has already claimed its refund.
pub open spec fn claimed(claims: Seq<String>, addr: Seq<char>) -> bool {
    exists|i: int| 0 <= i < claims.len() && claims[i]@ == addr
}

/// Whether `addr` holds an aggregate entry.
pub open spec fn has_wallet(ws: Seq<(String, WalletMetadata)>, addr: Seq<char>) -> bool {
    exists|w: int| 0 <= w < ws.len() && (#[trigger] ws[w]).0@ == addr
}

/// Replacing one aggregate entry moves the total by the difference of the
/// ticket counts.
pub proof fn lemma_total_wallet_update(
    ws: Seq<(String, WalletMetadata)>,
    w: int,
    pair: (String, WalletMetadata),
)
    requires
        0 <= w < ws.len(),
    ensures
        total_wallet_tickets(ws.update(w, pair)) == total_wallet_tickets(ws)
            - ws[w].1.ticket_count + pair.1.ticket_count,
    decreases ws.len(),
{
    let upd = ws.update(w, pair);
    if w == ws.len() - 1 {
        assert(upd.drop_last() =~= ws.drop_last());
    } else {
        assert(upd.drop_last() =~= ws.drop_last().update(w, pair));
        lemma_total_wallet_update(ws.drop_last(), w, pair);
    }
}

/// Appending one aggregate entry adds its ticket count to the total.
pub proof fn lemma_total_wallet_push(
    ws: Seq<(String, WalletMetadata)>,
    pair: (String, WalletMetadata),
)
    ensures
        total_wallet_tickets(ws.push(pair)) == total_wallet_tickets(ws) + pair.1.ticket_count,
{
    assert(ws.push(pair).drop_last() =~= ws);
}

/// Recording one more refund claim: a wallet counts as claimed afterwards
/// exactly when it was claimed before or is the one recorded.
pub proof fn lemma_claimed_push(claims: Seq<String>, s: String, addr: Seq<char>)
    ensures
        claimed(claims.push(s), addr) == (claimed(claims, addr) || s@ == addr),
{
    if claimed(claims, addr) {
        let i = choose|i: int| 0 <= i < claims.len() && (#[trigger] claims[i])@ == addr;
        assert(claims.push(s)[i]@ == addr);
    }
    if s@ == addr {
        assert(claims.push(s)[claims.len() as int]@ == addr);
    }
    if claimed(claims.push(s), addr) {
        let i = choose|i: int|
            0 <= i < claims.push(s).len() && (#[trigger] claims.push(s)[i])@ == addr;
        if i < claims.len() {
            assert(claims[i]@ == addr);
        }
    }
}

/// A buyer with no orders holds no tickets.
pub proof fn lemma_wallet_tickets_zero(orders: Seq<TicketOrder>, addr: Seq<char>)
    requires
        forall|i: int| 0 <= i < orders.len() ==> (#[trigger] orders[i]).address@ != addr,
    ensures
        wallet_tickets(orders, addr) == 0,
        wallet_order_total(orders, addr) == 0,
    decreases orders.len(),
{
    if orders.len() > 0 {
        assert(forall|i: int|
            0 <= i < orders.drop_last().len() ==> orders.drop_last()[i] == orders[i]);
        lemma_wallet_tickets_zero(orders.drop_last(), addr);
    }
}

/// No wallet appears twice in the aggregate map.
pub open spec fn unique_wallet_keys(ws: Seq<(String, WalletMetadata)>) -> bool {
    forall|i: int, j: int|
        0 <= i < j < ws.len() ==> (#[trigger] ws[i].0@) != (#[trigger] ws[j].0@)
}

/// No wallet appears twice in the refund-claim list: a refund is recorded at
/// most once.
pub open spec fn unique_claims(claims: Seq<String>) -> bool {
    forall|i: int, j: int|
        0 <= i < j < claims.len() ==> (#[trigger] claims[i]@) != (#[trigger] claims[j]@)
}

/// The persisted state of one raffle.
pub struct ContractState {
    /// The operator: the identity allowed to finalize or cancel.
    pub owner: String,
    pub raffle: Raffle,
    pub marketing: RaffleMarketingInfo,
    /// Append-only ticket ledger, in purchase order.
    pub orders: Vec<TicketOrder>,
    /// Royalty recipients, fixed at creation.
    pub royalties: Vec<RoyaltyRecipient>,
    /// Tax beneficiaries, fixed at creation.
    pub taxes: Vec<TaxBeneficiary>,
    /// Per-buyer aggregates, keyed by wallet address.
    pub wallets: Vec<(String, WalletMetadata)>,
    /// Wallets whose refund was already paid out.
    pub refund_claims: Vec<String>,
}

impl ContractState {
    /// Everything the operations preserve. Established by `initialize`,
    /// required and re-established by every mutating operation.
    pub open spec fn wf(self) -> bool {
        &&& orders_well_formed(self.orders@)
        &&& self.raffle.tickets_sold as int == sold_total(self.orders@)
        &&& self.raffle.tickets_sold as int * self.raffle.price.amount as int <= u128::MAX as int
        &&& match self.raffle.ticket_supply {
            Some(s) => self.raffle.tickets_sold <= s && s >= 1 && s as int
                * self.raffle.price.amount as int <= u128::MAX as int,
            None => true,
        }
        &&& self.raffle.wallet_count as int == self.wallets@.len()
        &&& self.raffle.wallet_count <= self.raffle.tickets_sold
        &&& unique_wallet_keys(self.wallets@)
        &&& forall|w: int|
            0 <= w < self.wallets@.len() ==> {
                let a = (#[trigger] self.wallets@[w]).0@;
                let m = self.wallets@[w].1;
                &&& m.ticket_count as int == wallet_tickets(self.orders@, a)
                &&& m.ticket_order_count as int == wallet_order_total(self.orders@, a)
                &&& m.ticket_order_count >= 1
                &&& m.ticket_count <= self.raffle.tickets_sold
                &&& m.has_claimed_refund == claimed(self.refund_claims@, a)
            }
        &&& total_wallet_tickets(self.wallets@) == self.raffle.tickets_sold as int
        &&& forall|i: int|
            0 <= i < self.orders@.len() ==> has_wallet(
                self.wallets@,
                (#[trigger] self.orders@[i]).address@,
            )
        &&& unique_claims(self.refund_claims@)
        &&& (self.raffle.status == RaffleStatus::Active ==> self.raffle.winner_address is None
            && self.refund_claims@.len() == 0)
        &&& sum_royalty_pct(self.royalties@) <= 100
        &&& sum_tax_pct(self.taxes@) <= TAX_PCT_DENOM as int
    }
}

/// Whether the configured supply cannot host the raffle: it is zero, or lies
/// below the configured sales target.
pub open spec fn supply_insufficient(msg: InstantiateMsg) -> bool {
    match msg.ticket_supply {
        Some(s) => s == 0 || (match msg.ticket_sales_target {
            Some(t) => s < t,
            None => false,
        }),
        None => false,
    }
}

/// Sum the royalty percentages, exactly as the spec-level sum does.
pub fn add_royalty_pcts(royalties: &Vec<RoyaltyRecipient>) -> (r: u128)
    ensures
        r as int == sum_royalty_pct(royalties@),
{
    let n = royalties.len();
    let mut acc: u128 = 0;
    for i in 0..n
        invariant
            n == royalties@.len(),
            acc as int == sum_royalty_pct(royalties@.take(i as int)),
            acc as int <= i as int * 255,
    {
        proof {
            assert(royalties@.take(i + 1).drop_last() =~= royalties@.take(i as int));
            assert(royalties@.take(i + 1).last() == royalties@[i as int]);
        }
        acc = acc + royalties[i].pct as u128;
    }
    proof {
        assert(royalties@.take(n as int) =~= royalties@);
    }
    acc
}

/// Sum the tax-beneficiary parts, exactly as the spec-level sum does.
pub fn add_tax_pcts(taxes: &Vec<TaxBeneficiary>) -> (r: u128)
    ensures
        r as int == sum_tax_pct(taxes@),
{
    let n = taxes.len();
    let mut acc: u128 = 0;
    for i in 0..n
        invariant
            n == taxes@.len(),
            acc as int == sum_tax_pct(taxes@.take(i as int)),
            acc as int <= i as int * (u32::MAX as int),
    {
        proof {
            assert(taxes@.take(i + 1).drop_last() =~= taxes@.take(i as int));
            assert(taxes@.take(i + 1).last() == taxes@[i as int]);
        }
        acc = acc + taxes[i].pct as u128;
    }
    proof {
        assert(taxes@.take(n as int) =~= taxes@);
    }
    acc
}

/// Whether a configuration is rejected: the supply cannot host the raffle,
/// no asset is raffled, or a payout table promises more than the whole.
pub open spec fn config_rejected(msg: InstantiateMsg) -> bool {
    ||| supply_insufficient(msg)
    ||| msg.assets@.len() == 0
    ||| sum_royalty_pct(msg.royalties@) > 100
    ||| sum_tax_pct(msg.taxes@) > TAX_PCT_DENOM as int
}

/// What a freshly created raffle looks like: well formed, `Active` with
/// nothing sold, the configuration carried over verbatim, the ledger, the
/// aggregates and the claim list empty, and the seed mixed from the creator
/// identity and the creating transaction's entropy.
pub open spec fn initialized_state(
    state: ContractState,
    env: ChainEnv,
    sender: Seq<char>,
    msg: InstantiateMsg,
) -> bool {
    &&& state.wf()
    &&& state.owner == msg.owner
    &&& state.raffle.price == msg.price
    &&& state.raffle.assets == msg.assets
    &&& state.raffle.status == RaffleStatus::Active
    &&& state.raffle.ticket_supply == msg.ticket_supply
    &&& state.raffle.ticket_sales_end_at == msg.ticket_sales_end_at
    &&& state.raffle.ticket_sales_target == msg.ticket_sales_target
    &&& state.raffle.winner_address is None
    &&& state.raffle.tickets_sold == 0
    &&& state.raffle.wallet_count == 0
    &&& state.raffle.seed == initial_seed(sender, env.time_nanos, env.height, env.tx_ordinal_spec())
    &&& state.orders@.len() == 0
    &&& state.wallets@.len() == 0
    &&& state.refund_claims@.len() == 0
    &&& state.royalties == msg.royalties
    &&& state.taxes == msg.taxes
    &&& state.marketing.raffle_name == msg.raffle_name
    &&& state.marketing.style == msg.style
    &&& state.marketing.website == msg.website
    &&& state.marketing.description == msg.description
    &&& state.marketing.socials == msg.socials
    &&& state.marketing.youtube_video_id == msg.youtube_video_id
    &&& state.marketing.org_name == msg.org_name
    &&& state.marketing.org_wallet == msg.org_wallet
    &&& state.marketing.org_logo_url == msg.org_logo_url
}

/// Build a raffle's initial state, validating the configuration: the supply,
/// when finite, must be positive and at least the sales target; at least one
/// asset must be raffled; the royalty percentages must sum to at most 100 and
/// the tax parts to at most the denominator. The initial seed mixes the
/// creator identity with the creating transaction's entropy.
pub fn initialize(env: &ChainEnv, sender: &String, msg: InstantiateMsg) -> (r: ContractResult<
    ContractState,
>)
    requires
        match msg.ticket_supply {
            Some(s) => s as int * msg.price.amount as int <= u128::MAX as int,
            None => true,
        },
    ensures
        r is Err <==> config_rejected(msg),
        supply_insufficient(msg) ==> (r matches Err(ContractError::InsufficientTicketSupply)),
        !supply_insufficient(msg) && msg.assets@.len() == 0 ==> (r matches Err(
            ContractError::ValidationError { reason: Some(t) },
        ) && t@ == "at least one asset is required"@),
        !supply_insufficient(msg) && msg.assets@.len() > 0 && sum_royalty_pct(msg.royalties@) > 100
            ==> (r matches Err(ContractError::ValidationError { reason: Some(t) }) && t@
            == "royalty percentages exceed 100"@),
        !supply_insufficient(msg) && msg.assets@.len() > 0 && sum_royalty_pct(msg.royalties@) <= 100
            && sum_tax_pct(msg.taxes@) > TAX_PCT_DENOM as int ==> (r matches Err(
            ContractError::ValidationError { reason: Some(t) },
        ) && t@ == "tax parts exceed the denominator"@),
        r matches Ok(state) ==> initialized_state(state, *env, sender@, msg),
{
    if let Some(supply) = msg.ticket_supply {
        if supply == 0 {
            return Err(ContractError::InsufficientTicketSupply);
        }
        if let Some(target) = msg.ticket_sales_target {
            if supply < target {
                return Err(ContractError::InsufficientTicketSupply);
            }
        }
    }
    if msg.assets.len() == 0 {
        return Err(
            ContractError::ValidationError {
                reason: Some("at least one asset is required".to_owned()),
            },
        );
    }
    if add_royalty_pcts(&msg.royalties) > 100 {
        return Err(
            ContractError::ValidationError {
                reason: Some("royalty percentages exceed 100".to_owned()),
            },
        );
    }
    if add_tax_pcts(&msg.taxes) > TAX_PCT_DENOM as u128 {
        return Err(
            ContractError::ValidationError {
                reason: Some("tax parts exceed the denominator".to_owned()),
            },
        );
    }
    let seed = seed_for_creation(sender.as_str(), env);
    let state = ContractState {
        owner: msg.owner,
        raffle: Raffle {
            price: msg.price,
            assets: msg.assets,
            status: RaffleStatus::Active,
            ticket_supply: msg.ticket_supply,
            ticket_sales_end_at: msg.ticket_sales_end_at,
            ticket_sales_target: msg.ticket_sales_target,
            winner_address: None,
            tickets_sold: 0,
            wallet_count: 0,
            seed,
        },
        marketing: RaffleMarketingInfo {
            style: msg.style,
            raffle_name: msg.raffle_name,
            org_name: msg.org_name,
            org_logo_url: msg.org_logo_url,
            org_wallet: msg.org_wallet,
            youtube_video_id: msg.youtube_video_id,
            website: msg.website,
            description: msg.description,
            socials: msg.socials,
        },
        orders: Vec::new(),
        royalties: msg.royalties,
        taxes: msg.taxes,
        wallets: Vec::new(),
        refund_claims: Vec::new(),
    };
    Ok(state)
}

/// Whether `addr` is the raffle's operator.
pub fn is_owner(state: &ContractState, addr: &String) -> (r: bool)
    ensures
        r == (state.owner@ == addr@),
{
    state.owner == *addr
}

/// Find the aggregate entry of one wallet, if it bought before.
pub fn find_wallet(wallets: &Vec<(String, WalletMetadata)>, addr: &String) -> (r: Option<usize>)
    ensures
        match r {
            Some(i) => i < wallets@.len() && wallets@[i as int].0@ == addr@,
            None => forall|j: int| 0 <= j < wallets@.len() ==> (#[trigger] wallets@[j].0@) != addr@,
        },
{
    let n = wallets.len();
    for i in 0..n
        invariant
            n == wallets@.len(),
            forall|j: int| 0 <= j < i ==> (#[trigger] wallets@[j].0@) != addr@,
    {
        if wallets[i].0 == *addr {
            return Some(i);
        }
    }
    None
}

/// Whether `addr` already claimed its refund.
pub fn has_claimed(claims: &Vec<String>, addr: &String) -> (r: bool)
    ensures
        r == claimed(claims@, addr@),
{
    let n = claims.len();
    for i in 0..n
        invariant
            n == claims@.len(),
            forall|j: int| 0 <= j < i ==> (#[trigger] claims@[j]@) != addr@,
    {
        if claims[i] == *addr {
            return true;
        }
    }
    false
}

/// Each ticket sold pushes the running sum up: prefix sums increase strictly
/// along a well-formed ledger.
pub proof fn lemma_prefix_sums_increase(orders: Seq<TicketOrder>, i: int, j: int)
    requires
        orders_well_formed(orders),
        0 <= i <= j <= orders.len(),
    ensures
        sum_counts(orders.take(i)) + (j - i) <= sum_counts(orders.take(j)),
    decreases j - i,
{
    if i < j {
        lemma_prefix_sums_increase(orders, i, j - 1);
        assert(orders.take(j).drop_last() =~= orders.take(j - 1));
        assert(orders.take(j).last() == orders[j - 1]);
    }
}

/// Cumulative counts increase strictly along the ledger.
pub proof fn lemma_cum_strictly_increasing(orders: Seq<TicketOrder>, i: int, j: int)
    requires
        orders_well_formed(orders),
        0 <= i < j < orders.len(),
    ensures
        orders[i].cumulative_count < orders[j].cumulative_count,
{
    lemma_prefix_sums_increase(orders, i + 1, j + 1);
}

/// The cumulative counts are the ledger's running sums, and they increase
/// strictly along the ledger: later orders own later, disjoint ticket
/// intervals, and the last cumulative count is the sum of all counts.
pub proof fn lemma_cumulative_running_sum(orders: Seq<TicketOrder>)
    requires
        orders_well_formed(orders),
    ensures
        forall|i: int, j: int|
            0 <= i < j < orders.len() ==> (#[trigger] orders[i]).cumulative_count < (
            #[trigger] orders[j]).cumulative_count,
        sold_total(orders) == sum_counts(orders),
{
    assert forall|i: int, j: int| 0 <= i < j < orders.len() implies (
    #[trigger] orders[i]).cumulative_count < (#[trigger] orders[j]).cumulative_count by {
        lemma_cum_strictly_increasing(orders, i, j);
    }
    if orders.len() > 0 {
        assert(orders.take(orders.len() as int) =~= orders);
    }
}

} // verus!
