use vstd::prelude::*;

use crate::models::ChainEnv;
use crate::msg::RandomResponse;
use crate::seed::draw_seed;
use crate::selection::{multi_pick, resolve_multiple_winners};
use crate::state::ContractState;

verus! {

/// How many draws the diagnostic batch samples.
pub const DIAGNOSTIC_DRAW_COUNT: u32 = 100;

/// The addresses the diagnostic batch draws, in draw order: a pure function
/// of the raffle's seed, the aggregates, and the block entropy. Queries carry
/// no caller, so the draw entropy mixes an empty caller identity.
pub open spec fn diagnostic_names(state: ContractState, env: ChainEnv) -> Seq<Seq<char>> {
    Seq::new(
        DIAGNOSTIC_DRAW_COUNT as nat,
        |n: int|
            state.wallets@[multi_pick(
                draw_seed(
                    state.raffle.seed,
                    Seq::empty(),
                    env.time_nanos,
                    env.height,
                    env.tx_ordinal_spec(),
                ),
                state.wallets@,
                n,
            )].0@,
    )
}

/// The drawn addresses, as character sequences.
pub open spec fn view_names(draws: Seq<String>) -> Seq<Seq<char>> {
    draws.map_values(|s: String| s@)
}

/// Whether the tally has an entry with key `a`.
pub open spec fn tallied_in(rs: Seq<(String, u32)>, a: Seq<char>) -> bool
    decreases rs.len(),
{
    rs.len() != 0 && (rs.last().0@ == a || tallied_in(rs.drop_last(), a))
}

/// Whether every drawn name has a tally entry.
pub open spec fn every_draw_tallied(names: Seq<Seq<char>>, rs: Seq<(String, u32)>) -> bool
    decreases names.len(),
{
    names.len() == 0 || (tallied_in(rs, names.last()) && every_draw_tallied(
        names.drop_last(),
        rs,
    ))
}

/// An entry anywhere in the tally makes its key tallied.
proof fn lemma_tallied_at(rs: Seq<(String, u32)>, k: int, a: Seq<char>)
    requires
        0 <= k < rs.len(),
        rs[k].0@ == a,
    ensures
        tallied_in(rs, a),
    decreases rs.len(),
{
    if k < rs.len() - 1 {
        lemma_tallied_at(rs.drop_last(), k, a);
    }
}

/// A total witness map yields the coverage claim.
proof fn lemma_tally_covers(names: Seq<Seq<char>>, rs: Seq<(String, u32)>, covered: Map<int, int>)
    requires
        forall|n: int|
            #![trigger covered[n]]
            0 <= n < names.len() ==> 0 <= covered[n] < rs.len() && names[n] == rs[covered[n]].0@,
    ensures
        every_draw_tallied(names, rs),
    decreases names.len(),
{
    if names.len() > 0 {
        let last = names.len() - 1;
        assert(0 <= covered[last] < rs.len() && names[last] == rs[covered[last]].0@);
        lemma_tallied_at(rs, covered[last], names.last());
        assert(forall|n: int|
            0 <= n < names.drop_last().len() ==> names.drop_last()[n] == names[n]);
        lemma_tally_covers(names.drop_last(), rs, covered);
    }
}

/// How often `a` occurs among `names`.
pub open spec fn occurrence_count(names: Seq<Seq<char>>, a: Seq<char>) -> int
    decreases names.len(),
{
    if names.len() == 0 {
        0
    } else {
        occurrence_count(names.drop_last(), a) + (if names.last() == a {
            1int
        } else {
            0int
        })
    }
}

/// A name occurs at most once per draw.
proof fn lemma_occurrence_bounds(names: Seq<Seq<char>>, a: Seq<char>)
    ensures
        0 <= occurrence_count(names, a) <= names.len(),
    decreases names.len(),
{
    if names.len() > 0 {
        lemma_occurrence_bounds(names.drop_last(), a);
    }
}

/// A name that matches no entry of a prefix was not drawn in that prefix.
proof fn lemma_occurrence_zero(names: Seq<Seq<char>>, a: Seq<char>)
    requires
        forall|i: int| 0 <= i < names.len() ==> (#[trigger] names[i]) != a,
    ensures
        occurrence_count(names, a) == 0,
    decreases names.len(),
{
    if names.len() > 0 {
        assert(forall|i: int|
            0 <= i < names.drop_last().len() ==> names.drop_last()[i] == names[i]);
        lemma_occurrence_zero(names.drop_last(), a);
    }
}

/// Find the tally entry of one address, if the address was drawn before.
fn find_entry(results: &Vec<(String, u32)>, key: &String) -> (r: Option<usize>)
    ensures
        match r {
            Some(k) => k < results@.len() && results@[k as int].0@ == key@,
            None => forall|j: int| 0 <= j < results@.len() ==> (#[trigger] results@[j].0@) != key@,
        },
{
    let n = results.len();
    for i in 0..n
        invariant
            n == results@.len(),
            forall|j: int| 0 <= j < i ==> (#[trigger] results@[j].0@) != key@,
    {
        if results[i].0 == *key {
            return Some(i);
        }
    }
    None
}

/// Tally how often each address occurs among the draws: one entry per
/// distinct address, counting its occurrences, and every draw accounted for
/// by an entry.
#[verifier::rlimit(50)]
fn tally_draws(draws: &Vec<String>) -> (r: Vec<(String, u32)>)
    requires
        draws@.len() <= u32::MAX,
    ensures
        forall|i: int, j: int|
            0 <= i < j < r@.len() ==> (#[trigger] r@[i].0@) != (#[trigger] r@[j].0@),
        forall|k: int|
            0 <= k < r@.len() ==> (#[trigger] r@[k]).1 as int == occurrence_count(
                view_names(draws@),
                r@[k].0@,
            ) && r@[k].1 >= 1,
        every_draw_tallied(view_names(draws@), r@),
{
    let ghost names = view_names(draws@);
    let mut results: Vec<(String, u32)> = Vec::new();
    let ghost mut covered: Map<int, int> = Map::empty();
    let nd = draws.len();
    proof {
        assert(names.take(0) =~= Seq::<Seq<char>>::empty());
    }
    let mut d: usize = 0;
    while d < nd
        invariant
            d <= nd,
            nd == draws@.len(),
            nd <= u32::MAX,
            names == view_names(draws@),
            names.len() == nd,
            forall|n: int| 0 <= n < nd ==> (#[trigger] draws@[n])@ == names[n],
            forall|i: int, j: int|
                0 <= i < j < results@.len() ==> (#[trigger] results@[i].0@) != (
                #[trigger] results@[j].0@),
            forall|k: int|
                0 <= k < results@.len() ==> (#[trigger] results@[k]).1 as int == occurrence_count(
                    names.take(d as int),
                    results@[k].0@,
                ) && results@[k].1 >= 1,
            forall|n: int|
                #![trigger covered[n]]
                0 <= n < d ==> 0 <= covered[n] < results@.len() && names[n]
                    == results@[covered[n]].0@,
        decreases nd - d,
    {
        proof {
            assert(names.take(d + 1).drop_last() =~= names.take(d as int));
            assert(names.take(d + 1).last() == names[d as int]);
        }
        let ghost before = results@;
        let found = find_entry(&results, &draws[d]);
        match found {
            Some(k) => {
                proof {
                    lemma_occurrence_bounds(names.take(d as int), results@[k as int].0@);
                }
                let entry = results.remove(k);
                let new_count = entry.1 + 1;
                results.insert(k, (entry.0, new_count));
                proof {
                    covered = covered.insert(d as int, k as int);
                    assert(results@ =~= before.update(k as int, (before[k as int].0, new_count)));
                }
            },
            None => {
                proof {
                    // An address with no tally entry was never drawn before:
                    // every earlier draw is covered by an entry.
                    assert forall|n: int| 0 <= n < d implies names[n] != names[d as int] by {
                        assert(before[covered[n]].0@ != draws@[d as int]@);
                    }
                    lemma_occurrence_zero(names.take(d as int), names[d as int]);
                }
                results.push((draws[d].clone(), 1));
                proof {
                    covered = covered.insert(d as int, results@.len() - 1);
                }
            },
        }
        proof {
            assert forall|n: int|
                #![trigger covered[n]]
                0 <= n < d + 1 implies 0 <= covered[n] < results@.len() && names[n]
                == results@[covered[n]].0@ by {
                if n < d {
                    assert(results@[covered[n]].0 == before[covered[n]].0);
                }
            }
        }
        d = d + 1;
    }
    proof {
        assert(names.take(nd as int) =~= names);
        lemma_tally_covers(names, results@, covered);
    }
    results
}

/// What the diagnostic query answers: an empty tally when nothing is sold;
/// otherwise one entry per distinct drawn wallet, counting exactly the draws
/// that picked it, with every draw accounted for by an entry.
pub open spec fn random_answer(state: ContractState, env: ChainEnv, r: RandomResponse) -> bool {
    &&& (state.raffle.tickets_sold == 0 ==> r.results@.len() == 0)
    &&& (state.raffle.tickets_sold > 0 ==> {
        let names = diagnostic_names(state, env);
        &&& forall|i: int, j: int|
            0 <= i < j < r.results@.len() ==> (#[trigger] r.results@[i].0@) != (
            #[trigger] r.results@[j].0@)
        &&& forall|k: int|
            0 <= k < r.results@.len() ==> (#[trigger] r.results@[k]).1 as int == occurrence_count(
                names,
                r.results@[k].0@,
            ) && r.results@[k].1 >= 1
        &&& every_draw_tallied(names, r.results@)
    })
}

/// Run the diagnostic draw batch and tally how often each wallet came up.
/// With nothing sold there is nothing to draw and the tally is empty;
/// otherwise each drawn wallet appears exactly once in the tally, with the
/// number of draws that picked it, and every draw is accounted for.
pub fn test_random(state: &ContractState, env: &ChainEnv) -> (r: RandomResponse)
    requires
        state.wf(),
    ensures
        random_answer(*state, *env, r),
{
    if state.raffle.tickets_sold == 0 {
        return RandomResponse { results: Vec::new() };
    }

    let caller = String::new();
    let draws = resolve_multiple_winners(
        &state.raffle,
        &state.wallets,
        &caller,
        env,
        DIAGNOSTIC_DRAW_COUNT,
    );
    let ghost names = diagnostic_names(*state, *env);
    proof {
        assert forall|n: int| 0 <= n < names.len() implies view_names(draws@)[n] == names[n] by {
            assert(draws@[n]@ == names[n]);
        }
        assert(view_names(draws@) =~= names);
    }
    let results = tally_draws(&draws);
    RandomResponse { results }
}

} // verus!
