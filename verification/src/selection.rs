use vstd::prelude::*;

use crate::models::{ChainEnv, Raffle, TicketOrder, WalletMetadata};
use crate::seed::{draw_seed, lemma_stream_step, stream_state, stream_value, DrawStream,
    seed_for_draw};
use crate::state::{
    lemma_prefix_sums_increase, orders_well_formed, sold_total, sum_counts, total_wallet_tickets,
};

verus! {

// Winner selection is weighted by tickets: each order owns the half-open
// interval `[cumulative_count - count, cumulative_count)` of ticket numbers,
// a ticket number is drawn from the deterministic stream, and the order whose
// interval contains it wins. The single draw finds that order by bisection
// over the cumulative index, never by a linear scan; the multi draw is a
// diagnostic that materializes one slot per ticket and samples with
// replacement.

/// The lower bound of one order's ticket interval.
pub open spec fn order_lo(orders: Seq<TicketOrder>, i: int) -> int {
    orders[i].cumulative_count - orders[i].count
}

/// Whether ticket number `x` falls in order `i`'s interval.
pub open spec fn interval_contains(orders: Seq<TicketOrder>, i: int, x: int) -> bool {
    order_lo(orders, i) <= x < orders[i].cumulative_count as int
}

/// An order's interval sits between the neighbouring running sums.
pub proof fn lemma_order_interval(orders: Seq<TicketOrder>, i: int)
    requires
        orders_well_formed(orders),
        0 <= i < orders.len(),
    ensures
        order_lo(orders, i) == sum_counts(orders.take(i)),
        0 <= order_lo(orders, i),
        order_lo(orders, i) < orders[i].cumulative_count as int,
{
    assert(orders.take(i + 1).drop_last() =~= orders.take(i));
    assert(orders.take(i + 1).last() == orders[i]);
    lemma_prefix_sums_increase(orders, 0, i);
    assert(orders.take(0) =~= Seq::<TicketOrder>::empty());
}

/// At most one order's interval contains a given ticket number: the intervals
/// are pairwise disjoint.
pub proof fn lemma_lookup_unique(orders: Seq<TicketOrder>, x: int, i: int, j: int)
    requires
        orders_well_formed(orders),
        0 <= i < orders.len(),
        0 <= j < orders.len(),
        interval_contains(orders, i, x),
        interval_contains(orders, j, x),
    ensures
        i == j,
{
    if i < j {
        lemma_order_interval(orders, i);
        lemma_order_interval(orders, j);
        lemma_prefix_sums_increase(orders, i + 1, j);
    }
    if j < i {
        lemma_order_interval(orders, i);
        lemma_order_interval(orders, j);
        lemma_prefix_sums_increase(orders, j + 1, i);
    }
}

/// The unique index of the order whose interval contains `x`.
pub open spec fn winning_index(orders: Seq<TicketOrder>, x: int) -> int {
    choose|i: int| 0 <= i < orders.len() && interval_contains(orders, i, x)
}

/// Find the order whose half-open ticket interval contains `x`, by binary
/// search over the cumulative-count-ordered ledger: compare `x` against the
/// midpoint order's interval, go left when `x` lies below its lower bound,
/// right when `x` lies at or above its upper bound, and stop inside it.
pub fn bisection_lookup(orders: &Vec<TicketOrder>, x: u32) -> (i: usize)
    requires
        orders_well_formed(orders@),
        orders@.len() > 0,
        (x as int) < sold_total(orders@),
    ensures
        (i as int) < orders@.len(),
        interval_contains(orders@, i as int, x as int),
        i as int == winning_index(orders@, x as int),
{
    let mut i1: usize = 0;
    let mut i2: usize = orders.len() - 1;
    proof {
        lemma_order_interval(orders@, 0);
        assert(orders@.take(0) =~= Seq::<TicketOrder>::empty());
    }
    loop
        invariant
            orders_well_formed(orders@),
            0 < orders@.len(),
            i1 <= i2 < orders@.len(),
            order_lo(orders@, i1 as int) <= x as int,
            (x as int) < orders@[i2 as int].cumulative_count as int,
        decreases i2 - i1,
    {
        let mid = i1 + (i2 - i1) / 2;
        proof {
            lemma_order_interval(orders@, mid as int);
            lemma_order_interval(orders@, i1 as int);
            lemma_order_interval(orders@, i2 as int);
        }
        let mid_hi = orders[mid].cumulative_count;
        let mid_lo = mid_hi - orders[mid].count;
        if x < mid_lo {
            proof {
                lemma_prefix_sums_increase(orders@, i1 as int, mid as int);
            }
            i2 = mid - 1;
            proof {
                lemma_order_interval(orders@, i2 as int);
                assert(orders@.take(mid as int).drop_last() =~= orders@.take(mid - 1));
                assert(orders@.take(mid as int).last() == orders@[mid - 1]);
            }
        } else if x >= mid_hi {
            proof {
                lemma_prefix_sums_increase(orders@, mid + 1, i2 as int);
                lemma_order_interval(orders@, mid + 1);
            }
            i1 = mid + 1;
        } else {
            proof {
                let w = winning_index(orders@, x as int);
                assert(interval_contains(orders@, mid as int, x as int));
                lemma_lookup_unique(orders@, x as int, mid as int, w);
            }
            return mid;
        }
    }
}

/// The ticket number a single draw selects: the first stream value of the
/// draw seed, reduced into `[0, tickets_sold)`.
pub open spec fn draw_ticket(
    seed: u64,
    tickets_sold: u32,
    caller: Seq<char>,
    time_nanos: u64,
    height: u64,
    tx: u64,
) -> int {
    stream_value(draw_seed(seed, caller, time_nanos, height, tx), 0) as int % (
    tickets_sold as int)
}

/// The buyer a single draw selects: the owner of the order whose interval
/// contains the drawn ticket number. A pure function of the seed, the ledger
/// and the draw entropy: replicas replaying the same history agree on it.
pub open spec fn single_draw_spec(
    seed: u64,
    orders: Seq<TicketOrder>,
    tickets_sold: u32,
    caller: Seq<char>,
    time_nanos: u64,
    height: u64,
    tx: u64,
) -> Seq<char> {
    orders[winning_index(orders, draw_ticket(seed, tickets_sold, caller, time_nanos, height, tx))].address@
}

/// Identical seed, ledger and draw entropy always select the identical
/// winner. (That *changing* an input changes the result is a statistical
/// property of the mixer, not a logical one, and is not stated.)
pub proof fn lemma_draw_deterministic(
    seed: u64,
    orders1: Seq<TicketOrder>,
    orders2: Seq<TicketOrder>,
    tickets_sold: u32,
    caller: Seq<char>,
    time_nanos: u64,
    height: u64,
    tx: u64,
)
    requires
        orders1 == orders2,
    ensures
        single_draw_spec(seed, orders1, tickets_sold, caller, time_nanos, height, tx)
            == single_draw_spec(seed, orders2, tickets_sold, caller, time_nanos, height, tx),
{
}

/// Draw the winner of a raffle: reseed the stream from the chained seed and
/// the drawing transaction's entropy, draw one ticket number, and return the
/// buyer whose order owns it.
pub fn draw_winner(raffle: &Raffle, orders: &Vec<TicketOrder>, caller: &String, env: &ChainEnv) -> (
    winner: String)
    requires
        orders_well_formed(orders@),
        raffle.tickets_sold as int == sold_total(orders@),
        raffle.tickets_sold > 0,
    ensures
        winner@ == single_draw_spec(
            raffle.seed,
            orders@,
            raffle.tickets_sold,
            caller@,
            env.time_nanos,
            env.height,
            env.tx_ordinal_spec(),
        ),
{
    let dseed = seed_for_draw(raffle.seed, caller.as_str(), env);
    let mut stream = DrawStream::reseed(dseed);
    let v = stream.next_value();
    proof {
        lemma_stream_step(dseed, 0);
    }
    let x64 = v % (raffle.tickets_sold as u64);
    let x = x64 as u32;
    proof {
        assert(orders@.len() > 0);
    }
    let i = bisection_lookup(orders, x);
    orders[i].address.clone()
}

/// The diagnostic bag: one slot per ticket, each naming the index of the
/// wallet that owns it, wallet by wallet in aggregate order.
pub open spec fn wallet_bag(ws: Seq<(String, WalletMetadata)>) -> Seq<int>
    decreases ws.len(),
{
    if ws.len() == 0 {
        Seq::empty()
    } else {
        wallet_bag(ws.drop_last()) + Seq::new(
            ws.last().1.ticket_count as nat,
            |t: int| ws.len() - 1,
        )
    }
}

/// The bag has one slot per aggregate ticket, and every slot names a wallet.
pub proof fn lemma_wallet_bag_len(ws: Seq<(String, WalletMetadata)>)
    ensures
        wallet_bag(ws).len() == total_wallet_tickets(ws),
        forall|k: int|
            0 <= k < wallet_bag(ws).len() ==> 0 <= #[trigger] wallet_bag(ws)[k] < ws.len(),
    decreases ws.len(),
{
    if ws.len() > 0 {
        lemma_wallet_bag_len(ws.drop_last());
    }
}

/// The wallet index the `n`-th draw of a multi-draw selects.
pub open spec fn multi_pick(
    dseed: u64,
    ws: Seq<(String, WalletMetadata)>,
    n: int,
) -> int {
    wallet_bag(ws)[stream_value(dseed, n as nat) as int % wallet_bag(ws).len() as int]
}

/// What a multi-draw returns: `count` names, the `n`-th being the owner of
/// the slot the `n`-th stream value picks from the bag. A pure function of
/// the seed, the aggregates and the draw entropy, usable by callers to reason
/// about each draw.
pub open spec fn multi_draw_picks(
    raffle: Raffle,
    wallets: Seq<(String, WalletMetadata)>,
    caller: Seq<char>,
    env: ChainEnv,
    count: u32,
    names: Seq<String>,
) -> bool {
    &&& names.len() == count as int
    &&& forall|n: int|
        0 <= n < count as int ==> {
            let pick = multi_pick(
                draw_seed(raffle.seed, caller, env.time_nanos, env.height, env.tx_ordinal_spec()),
                wallets,
                n,
            );
            0 <= pick < wallets.len() && (#[trigger] names[n])@ == wallets[pick].0@
        }
}

/// Draw `count` wallets with replacement from one reseeded stream, weighting
/// each wallet by its aggregate ticket count. Diagnostic only: it
/// materializes one slot per ticket, so memory and time are linear in
/// tickets sold and it suits only small draws.
pub fn resolve_multiple_winners(
    raffle: &Raffle,
    wallets: &Vec<(String, WalletMetadata)>,
    caller: &String,
    env: &ChainEnv,
    count: u32,
) -> (r: Vec<String>)
    requires
        raffle.tickets_sold > 0,
        total_wallet_tickets(wallets@) == raffle.tickets_sold as int,
    ensures
        multi_draw_picks(*raffle, wallets@, caller@, *env, count, r@),
{
    let dseed = seed_for_draw(raffle.seed, caller.as_str(), env);

    let nw = wallets.len();
    let mut bag: Vec<usize> = Vec::new();
    proof {
        assert(wallets@.take(0) =~= Seq::<(String, WalletMetadata)>::empty());
        lemma_wallet_bag_len(wallets@);
        lemma_total_wallet_tickets_prefix(wallets@, 0);
    }
    for w in 0..nw
        invariant
            nw == wallets@.len(),
            total_wallet_tickets(wallets@) == raffle.tickets_sold as int,
            raffle.tickets_sold > 0,
            bag@.len() == total_wallet_tickets(wallets@.take(w as int)),
            total_wallet_tickets(wallets@.take(w as int)) <= total_wallet_tickets(wallets@),
            forall|k: int|
                0 <= k < bag@.len() ==> (#[trigger] bag@[k]) as int == wallet_bag(
                    wallets@.take(w as int),
                )[k] && (bag@[k] as int) < w as int,
    {
        proof {
            lemma_wallet_bag_len(wallets@.take(w as int));
            lemma_wallet_bag_len(wallets@.take(w + 1));
            lemma_total_wallet_tickets_prefix(wallets@, w + 1);
            assert(wallets@.take(w + 1).drop_last() =~= wallets@.take(w as int));
            assert(wallets@.take(w + 1).last() == wallets@[w as int]);
        }
        let m = wallets[w].1.ticket_count;
        let start = bag.len();
        for t in 0..m
            invariant
                nw == wallets@.len(),
                w < nw,
                start == total_wallet_tickets(wallets@.take(w as int)),
                bag@.len() == start + t as int,
                total_wallet_tickets(wallets@.take(w + 1)) == start + m as int,
                total_wallet_tickets(wallets@.take(w + 1)) <= total_wallet_tickets(wallets@),
                m == wallets@[w as int].1.ticket_count,
                forall|k: int|
                    0 <= k < start ==> (#[trigger] bag@[k]) as int == wallet_bag(
                        wallets@.take(w as int),
                    )[k] && (bag@[k] as int) < w as int,
                forall|k: int| start <= k < bag@.len() ==> (#[trigger] bag@[k]) as int == w as int,
        {
            bag.push(w);
        }
        proof {
            assert(forall|k: int|
                0 <= k < bag@.len() ==> (#[trigger] bag@[k]) as int == wallet_bag(
                    wallets@.take(w + 1),
                )[k] && (bag@[k] as int) < w + 1) by {
                assert(wallet_bag(wallets@.take(w + 1)) == wallet_bag(wallets@.take(w as int))
                    + Seq::new(
                    wallets@[w as int].1.ticket_count as nat,
                    |t: int| w as int,
                ));
            }
        }
    }
    proof {
        assert(wallets@.take(nw as int) =~= wallets@);
    }

    let mut stream = DrawStream::reseed(dseed);
    let mut winners: Vec<String> = Vec::new();
    let total = bag.len();
    let mut n: u32 = 0;
    while n < count
        invariant
            n <= count,
            total == bag@.len(),
            bag@.len() == total_wallet_tickets(wallets@),
            total_wallet_tickets(wallets@) == raffle.tickets_sold as int,
            raffle.tickets_sold > 0,
            forall|k: int|
                0 <= k < bag@.len() ==> (#[trigger] bag@[k]) as int == wallet_bag(wallets@)[k] && (
                bag@[k] as int) < wallets@.len(),
            stream.state_spec() == stream_state(dseed, n as nat),
            winners@.len() == n as int,
            forall|j: int|
                0 <= j < n as int ==> {
                    let pick = multi_pick(dseed, wallets@, j);
                    0 <= pick < wallets@.len() && (#[trigger] winners@[j])@ == wallets@[pick].0@
                },
        decreases count - n,
    {
        let v = stream.next_value();
        proof {
            lemma_stream_step(dseed, n as nat);
            lemma_wallet_bag_len(wallets@);
        }
        let x = (v % (total as u64)) as usize;
        let widx = bag[x];
        winners.push(wallets[widx].0.clone());
        proof {
            assert(v == stream_value(dseed, n as nat));
            assert(total as int == wallet_bag(wallets@).len());
            assert(x as int == stream_value(dseed, n as nat) as int % wallet_bag(
                wallets@,
            ).len() as int);
            assert(bag@[x as int] as int == wallet_bag(wallets@)[x as int]);
            assert(multi_pick(dseed, wallets@, n as int) == widx as int);
            assert(winners@[n as int]@ == wallets@[widx as int].0@);
        }
        n = n + 1;
    }
    winners
}

/// Prefix sums of the aggregate ticket counts never exceed the whole sum.
pub proof fn lemma_total_wallet_tickets_prefix(ws: Seq<(String, WalletMetadata)>, i: int)
    requires
        0 <= i <= ws.len(),
    ensures
        0 <= total_wallet_tickets(ws.take(i)) <= total_wallet_tickets(ws),
    decreases ws.len() - i,
{
    if i == ws.len() {
        assert(ws.take(i) =~= ws);
        lemma_total_wallet_tickets_nonneg(ws);
    } else {
        lemma_total_wallet_tickets_prefix(ws, i + 1);
        lemma_total_wallet_tickets_nonneg(ws.take(i));
        assert(ws.take(i + 1).drop_last() =~= ws.take(i));
        assert(ws.take(i + 1).last() == ws[i]);
    }
}

/// Aggregate ticket counts are non-negative, so their sum is too.
pub proof fn lemma_total_wallet_tickets_nonneg(ws: Seq<(String, WalletMetadata)>)
    ensures
        0 <= total_wallet_tickets(ws),
    decreases ws.len(),
{
    if ws.len() > 0 {
        lemma_total_wallet_tickets_nonneg(ws.drop_last());
    }
}

} // verus!
