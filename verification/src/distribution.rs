use vstd::prelude::*;

use vstd::arithmetic::div_mod::{lemma_fundamental_div_mod, lemma_mod_bound};

use crate::models::{
    RaffleAsset, RoyaltyRecipient, TaxBeneficiary, Token, TransferInstruction, TAX_PCT_DENOM,
};

verus! {

// The proceeds distributor turns the sales pot into payout instructions:
// first each fixed tax beneficiary receives its configured cut of the whole
// pot, then each royalty recipient receives its percentage of what the taxes
// left. All percentage arithmetic is multiply-then-floor-divide, so up to one
// minimal currency unit per recipient can remain undistributed; the remainder
// stays on the raffle's own balance, which is accepted behavior.

/// Sum of the tax beneficiaries' parts (per [`TAX_PCT_DENOM`]).
pub open spec fn sum_tax_pct(s: Seq<TaxBeneficiary>) -> int
    decreases s.len(),
{
    if s.len() == 0 {
        0
    } else {
        sum_tax_pct(s.drop_last()) + s.last().pct
    }
}

/// Sum of the royalty recipients' percentages (per 100).
pub open spec fn sum_royalty_pct(s: Seq<RoyaltyRecipient>) -> int
    decreases s.len(),
{
    if s.len() == 0 {
        0
    } else {
        sum_royalty_pct(s.drop_last()) + s.last().pct
    }
}

/// What one tax beneficiary with part `pct` receives of `pot`.
pub open spec fn tax_amount(pot: int, pct: int) -> int {
    pot * pct / (TAX_PCT_DENOM as int)
}

/// What one royalty recipient with percentage `pct` receives of the
/// post-tax remainder `base`.
pub open spec fn royalty_amount(base: int, pct: int) -> int {
    base * pct / 100
}

/// Total paid to the tax beneficiaries of `s` out of `pot`.
pub open spec fn sum_tax_amounts(pot: int, s: Seq<TaxBeneficiary>) -> int
    decreases s.len(),
{
    if s.len() == 0 {
        0
    } else {
        sum_tax_amounts(pot, s.drop_last()) + tax_amount(pot, s.last().pct as int)
    }
}

/// Total paid to the royalty recipients of `s` out of `base`.
pub open spec fn sum_royalty_amounts(base: int, s: Seq<RoyaltyRecipient>) -> int
    decreases s.len(),
{
    if s.len() == 0 {
        0
    } else {
        sum_royalty_amounts(base, s.drop_last()) + royalty_amount(base, s.last().pct as int)
    }
}

/// A floored percentage take is sandwiched by the exact one:
/// `d * (a*p/d)` lies in `(a*p - d, a*p]`.
proof fn lemma_cut_bounds(a: int, p: int, d: int)
    requires
        0 <= a,
        0 <= p,
        0 < d,
    ensures
        0 <= a * p / d,
        d * (a * p / d) <= a * p,
        d * (a * p / d) >= a * p - d + 1,
{
    assert(0 <= a * p) by (nonlinear_arith)
        requires 0 <= a && 0 <= p;
    lemma_fundamental_div_mod(a * p, d);
    lemma_mod_bound(a * p, d);
    assert(0 <= a * p / d) by (nonlinear_arith)
        requires 0 <= a * p && 0 < d && a * p == d * (a * p / d) + (a * p) % d && 0 <= (a * p) % d < d;
}

/// The tax total, scaled by the denominator, is sandwiched between the exact
/// proportional amount and that amount less one denominator per beneficiary.
pub proof fn lemma_tax_total_bounds(pot: int, s: Seq<TaxBeneficiary>)
    requires
        0 <= pot,
    ensures
        0 <= sum_tax_amounts(pot, s),
        (TAX_PCT_DENOM as int) * sum_tax_amounts(pot, s) <= pot * sum_tax_pct(s),
        (TAX_PCT_DENOM as int) * sum_tax_amounts(pot, s) >= pot * sum_tax_pct(s) - s.len() * (
        TAX_PCT_DENOM as int) + s.len(),
    decreases s.len(),
{
    let d = TAX_PCT_DENOM as int;
    if s.len() == 0 {
    } else {
        lemma_tax_total_bounds(pot, s.drop_last());
        lemma_cut_bounds(pot, s.last().pct as int, d);
        let t = s.drop_last();
        assert(pot * sum_tax_pct(s) == pot * sum_tax_pct(t) + pot * (s.last().pct as int))
            by (nonlinear_arith)
            requires sum_tax_pct(s) == sum_tax_pct(t) + s.last().pct;
        assert(d * sum_tax_amounts(pot, s) == d * sum_tax_amounts(pot, t) + d * tax_amount(
            pot,
            s.last().pct as int,
        )) by (nonlinear_arith)
            requires sum_tax_amounts(pot, s) == sum_tax_amounts(pot, t) + tax_amount(pot, s.last().pct as int);
    }
}

/// The royalty total, scaled by 100, is sandwiched in the same way.
pub proof fn lemma_royalty_total_bounds(base: int, s: Seq<RoyaltyRecipient>)
    requires
        0 <= base,
    ensures
        0 <= sum_royalty_amounts(base, s),
        100 * sum_royalty_amounts(base, s) <= base * sum_royalty_pct(s),
        100 * sum_royalty_amounts(base, s) >= base * sum_royalty_pct(s) - s.len() * 100 + s.len(),
    decreases s.len(),
{
    if s.len() == 0 {
    } else {
        lemma_royalty_total_bounds(base, s.drop_last());
        lemma_cut_bounds(base, s.last().pct as int, 100);
        let t = s.drop_last();
        assert(base * sum_royalty_pct(s) == base * sum_royalty_pct(t) + base * (
        s.last().pct as int)) by (nonlinear_arith)
            requires sum_royalty_pct(s) == sum_royalty_pct(t) + s.last().pct;
        assert(100 * sum_royalty_amounts(base, s) == 100 * sum_royalty_amounts(base, t) + 100
            * royalty_amount(base, s.last().pct as int)) by (nonlinear_arith)
            requires sum_royalty_amounts(base, s) == sum_royalty_amounts(base, t) + royalty_amount(base, s.last().pct as int);
    }
}

/// No beneficiary is promised more than the table's whole sum.
pub proof fn lemma_tax_pct_le_sum(s: Seq<TaxBeneficiary>, i: int)
    requires
        0 <= i < s.len(),
    ensures
        s[i].pct <= sum_tax_pct(s),
    decreases s.len(),
{
    if i == s.len() - 1 {
        lemma_sum_tax_pct_nonneg(s.drop_last());
    } else {
        lemma_tax_pct_le_sum(s.drop_last(), i);
        assert(s.drop_last()[i] == s[i]);
    }
}

pub proof fn lemma_sum_tax_pct_nonneg(s: Seq<TaxBeneficiary>)
    ensures
        0 <= sum_tax_pct(s),
    decreases s.len(),
{
    if s.len() > 0 {
        lemma_sum_tax_pct_nonneg(s.drop_last());
    }
}

/// No royalty recipient is promised more than the list's whole sum.
pub proof fn lemma_royalty_pct_le_sum(s: Seq<RoyaltyRecipient>, i: int)
    requires
        0 <= i < s.len(),
    ensures
        s[i].pct <= sum_royalty_pct(s),
    decreases s.len(),
{
    if i == s.len() - 1 {
        lemma_sum_royalty_pct_nonneg(s.drop_last());
    } else {
        lemma_royalty_pct_le_sum(s.drop_last(), i);
        assert(s.drop_last()[i] == s[i]);
    }
}

pub proof fn lemma_sum_royalty_pct_nonneg(s: Seq<RoyaltyRecipient>)
    ensures
        0 <= sum_royalty_pct(s),
    decreases s.len(),
{
    if s.len() > 0 {
        lemma_sum_royalty_pct_nonneg(s.drop_last());
    }
}

/// Prefix sums of the tax parts stay between zero and the whole sum.
pub proof fn lemma_tax_pct_prefix(s: Seq<TaxBeneficiary>, i: int)
    requires
        0 <= i <= s.len(),
    ensures
        0 <= sum_tax_pct(s.take(i)) <= sum_tax_pct(s),
    decreases s.len() - i,
{
    if i == s.len() {
        assert(s.take(i) =~= s);
        lemma_sum_tax_pct_nonneg(s);
    } else {
        lemma_tax_pct_prefix(s, i + 1);
        lemma_sum_tax_pct_nonneg(s.take(i));
        assert(s.take(i + 1).drop_last() =~= s.take(i));
        assert(s.take(i + 1).last() == s[i]);
    }
}

/// The taxes take at most the pot.
pub proof fn lemma_tax_sum_le_pot(pot: int, s: Seq<TaxBeneficiary>)
    requires
        0 <= pot,
        sum_tax_pct(s) <= TAX_PCT_DENOM as int,
    ensures
        0 <= sum_tax_amounts(pot, s) <= pot,
{
    let d = TAX_PCT_DENOM as int;
    lemma_tax_total_bounds(pot, s);
    assert(sum_tax_amounts(pot, s) <= pot) by (nonlinear_arith)
        requires
            0 <= pot,
            0 < d,
            sum_tax_pct(s) <= d,
            d * sum_tax_amounts(pot, s) <= pot * sum_tax_pct(s),
            0 <= sum_tax_amounts(pot, s);
}

/// Taking `pct <= d` parts of `a` never returns more than `a`.
proof fn lemma_cut_le_whole(a: int, p: int, d: int)
    requires
        0 <= a,
        0 <= p <= d,
        0 < d,
    ensures
        0 <= a * p / d <= a,
{
    lemma_cut_bounds(a, p, d);
    assert(a * p / d <= a) by (nonlinear_arith)
        requires 0 <= a && 0 <= p <= d && 0 < d && d * (a * p / d) <= a * p;
}

/// The whole distribution stays within the pot: the taxes take at most the
/// pot, and the royalties at most what the taxes left.
pub proof fn lemma_distribution_within_pot(
    pot: int,
    taxes: Seq<TaxBeneficiary>,
    royalties: Seq<RoyaltyRecipient>,
)
    requires
        0 <= pot,
        sum_tax_pct(taxes) <= TAX_PCT_DENOM as int,
        sum_royalty_pct(royalties) <= 100,
    ensures
        0 <= sum_tax_amounts(pot, taxes) <= pot,
        0 <= sum_royalty_amounts(pot - sum_tax_amounts(pot, taxes), royalties) <= pot
            - sum_tax_amounts(pot, taxes),
        sum_tax_amounts(pot, taxes) + sum_royalty_amounts(
            pot - sum_tax_amounts(pot, taxes),
            royalties,
        ) <= pot,
{
    let d = TAX_PCT_DENOM as int;
    lemma_tax_total_bounds(pot, taxes);
    assert(sum_tax_amounts(pot, taxes) <= pot) by (nonlinear_arith)
        requires
            0 <= pot,
            0 < d,
            sum_tax_pct(taxes) <= d,
            d * sum_tax_amounts(pot, taxes) <= pot * sum_tax_pct(taxes),
            0 <= sum_tax_amounts(pot, taxes);
    let base = pot - sum_tax_amounts(pot, taxes);
    lemma_royalty_total_bounds(base, royalties);
    assert(sum_royalty_amounts(base, royalties) <= base) by (nonlinear_arith)
        requires
            0 <= base,
            sum_royalty_pct(royalties) <= 100,
            100 * sum_royalty_amounts(base, royalties) <= base * sum_royalty_pct(royalties),
            0 <= sum_royalty_amounts(base, royalties);
}

/// When the percentages partition the pot exactly, the rounding drift — the
/// part of the pot the instructions leave behind — is smaller than the number
/// of recipients: each floor loses less than one minimal unit.
pub proof fn lemma_distribution_drift(
    pot: int,
    taxes: Seq<TaxBeneficiary>,
    royalties: Seq<RoyaltyRecipient>,
)
    requires
        0 <= pot,
        sum_tax_pct(taxes) == TAX_PCT_DENOM as int,
        sum_royalty_pct(royalties) == 100,
    ensures
        pot - (sum_tax_amounts(pot, taxes) + sum_royalty_amounts(
            pot - sum_tax_amounts(pot, taxes),
            royalties,
        )) < taxes.len() + royalties.len(),
        pot - (sum_tax_amounts(pot, taxes) + sum_royalty_amounts(
            pot - sum_tax_amounts(pot, taxes),
            royalties,
        )) >= 0,
{
    let d = TAX_PCT_DENOM as int;
    lemma_distribution_within_pot(pot, taxes, royalties);
    lemma_tax_total_bounds(pot, taxes);
    let st = sum_tax_amounts(pot, taxes);
    assert(pot - st <= taxes.len()) by (nonlinear_arith)
        requires
            0 < d,
            d * st >= pot * d - taxes.len() * d + taxes.len(),
            0 <= taxes.len();
    let base = pot - st;
    lemma_royalty_total_bounds(base, royalties);
    let sr = sum_royalty_amounts(base, royalties);
    assert(base - sr < royalties.len() || (royalties.len() == 0 && base == sr)) by (nonlinear_arith)
        requires
            100 * sr >= base * 100 - royalties.len() * 100 + royalties.len(),
            0 <= royalties.len();
    if royalties.len() == 0 {
        assert(sum_royalty_pct(royalties) == 0);
    }
}

/// Relies on `cosmwasm_std::Uint128::multiply_ratio`: it returns
/// `self * numerator / denominator`, floored, computing the product at full
/// width, and panics only on a zero denominator or on a quotient that
/// overflows the 128-bit range — both excluded here by precondition.
#[verifier::external_body]
fn mul_ratio_u128(amount: u128, numerator: u128, denominator: u128) -> (r: u128)
    requires
        0 < denominator,
        amount as int * numerator as int / denominator as int <= u128::MAX as int,
    ensures
        r as int == amount as int * numerator as int / denominator as int,
{
    cosmwasm_std::Uint128::new(amount).multiply_ratio(numerator, denominator).u128()
}

/// Pay each tax beneficiary its part of the whole pot, in table order.
pub fn compute_tax_payouts(pot: u128, token: &Token, taxes: &Vec<TaxBeneficiary>) -> (r: Vec<
    TransferInstruction,
>)
    requires
        sum_tax_pct(taxes@) <= TAX_PCT_DENOM as int,
    ensures
        r@.len() == taxes@.len(),
        forall|i: int|
            0 <= i < r@.len() ==> {
                &&& (#[trigger] r@[i]).amount as int == tax_amount(pot as int, taxes@[i].pct as int)
                &&& r@[i].recipient@ == taxes@[i].address@
                &&& r@[i].token == *token
            },
{
    let n = taxes.len();
    let mut r: Vec<TransferInstruction> = Vec::new();
    for k in 0..n
        invariant
            n == taxes@.len(),
            sum_tax_pct(taxes@) <= TAX_PCT_DENOM as int,
            r@.len() == k,
            forall|i: int|
                0 <= i < k ==> {
                    &&& (#[trigger] r@[i]).amount as int == tax_amount(
                        pot as int,
                        taxes@[i].pct as int,
                    )
                    &&& r@[i].recipient@ == taxes@[i].address@
                    &&& r@[i].token == *token
                },
    {
        proof {
            lemma_tax_pct_le_sum(taxes@, k as int);
            lemma_cut_le_whole(pot as int, taxes@[k as int].pct as int, TAX_PCT_DENOM as int);
        }
        let amount = mul_ratio_u128(pot, taxes[k].pct as u128, TAX_PCT_DENOM as u128);
        r.push(
            TransferInstruction {
                recipient: taxes[k].address.clone(),
                token: token.duplicate(),
                amount,
            },
        );
    }
    r
}

/// Pay each royalty recipient its percentage of the post-tax remainder, in
/// list order.
pub fn compute_royalty_payouts(base: u128, token: &Token, royalties: &Vec<RoyaltyRecipient>) -> (r:
    Vec<TransferInstruction>)
    requires
        sum_royalty_pct(royalties@) <= 100,
    ensures
        r@.len() == royalties@.len(),
        forall|i: int|
            0 <= i < r@.len() ==> {
                &&& (#[trigger] r@[i]).amount as int == royalty_amount(
                    base as int,
                    royalties@[i].pct as int,
                )
                &&& r@[i].recipient@ == royalties@[i].address@
                &&& r@[i].token == *token
            },
{
    let n = royalties.len();
    let mut r: Vec<TransferInstruction> = Vec::new();
    for k in 0..n
        invariant
            n == royalties@.len(),
            sum_royalty_pct(royalties@) <= 100,
            r@.len() == k,
            forall|i: int|
                0 <= i < k ==> {
                    &&& (#[trigger] r@[i]).amount as int == royalty_amount(
                        base as int,
                        royalties@[i].pct as int,
                    )
                    &&& r@[i].recipient@ == royalties@[i].address@
                    &&& r@[i].token == *token
                },
    {
        proof {
            lemma_royalty_pct_le_sum(royalties@, k as int);
            lemma_cut_le_whole(base as int, royalties@[k as int].pct as int, 100);
        }
        let amount = mul_ratio_u128(base, royalties[k].pct as u128, 100);
        r.push(
            TransferInstruction {
                recipient: royalties[k].address.clone(),
                token: token.duplicate(),
                amount,
            },
        );
    }
    r
}

/// The tax total actually paid out: the sum of the floored cuts.
pub fn total_tax_amount(pot: u128, taxes: &Vec<TaxBeneficiary>) -> (r: u128)
    requires
        sum_tax_pct(taxes@) <= TAX_PCT_DENOM as int,
    ensures
        r as int == sum_tax_amounts(pot as int, taxes@),
        r <= pot,
{
    let n = taxes.len();
    let mut acc: u128 = 0;
    for i in 0..n
        invariant
            n == taxes@.len(),
            sum_tax_pct(taxes@) <= TAX_PCT_DENOM as int,
            acc as int == sum_tax_amounts(pot as int, taxes@.take(i as int)),
            acc <= pot,
    {
        proof {
            lemma_tax_pct_le_sum(taxes@, i as int);
            lemma_cut_le_whole(pot as int, taxes@[i as int].pct as int, TAX_PCT_DENOM as int);
            lemma_tax_pct_prefix(taxes@, i + 1);
            lemma_tax_sum_le_pot(pot as int, taxes@.take(i + 1));
            assert(taxes@.take(i + 1).drop_last() =~= taxes@.take(i as int));
            assert(taxes@.take(i + 1).last() == taxes@[i as int]);
            assert(sum_tax_pct(taxes@.take(i + 1)) <= sum_tax_pct(taxes@));
        }
        let amount = mul_ratio_u128(pot, taxes[i].pct as u128, TAX_PCT_DENOM as u128);
        acc = acc + amount;
    }
    proof {
        assert(taxes@.take(n as int) =~= taxes@);
    }
    acc
}

/// The prizes among the raffle's assets: the fungible token entries, in
/// declaration order. The other asset kinds are settled off-engine.
pub open spec fn fungible_assets(assets: Seq<RaffleAsset>) -> Seq<RaffleAsset>
    decreases assets.len(),
{
    if assets.len() == 0 {
        Seq::empty()
    } else {
        fungible_assets(assets.drop_last()) + (if assets.last() matches RaffleAsset::Token { .. } {
            seq![assets.last()]
        } else {
            Seq::empty()
        })
    }
}

/// One instruction per fungible prize asset, sending it whole to `recipient`.
pub fn prize_payouts(assets: &Vec<RaffleAsset>, recipient: &String) -> (r: Vec<TransferInstruction>)
    ensures
        r@.len() == fungible_assets(assets@).len(),
        forall|i: int|
            0 <= i < r@.len() ==> {
                &&& fungible_assets(assets@)[i] matches RaffleAsset::Token { token, amount, .. }
                &&& (#[trigger] r@[i]).token == fungible_assets(
                    assets@,
                )[i]->Token_token
                &&& r@[i].amount == fungible_assets(assets@)[i]->Token_amount
                &&& r@[i].recipient@ == recipient@
            },
{
    let n = assets.len();
    let mut r: Vec<TransferInstruction> = Vec::new();
    for k in 0..n
        invariant
            n == assets@.len(),
            r@.len() == fungible_assets(assets@.take(k as int)).len(),
            forall|i: int|
                0 <= i < r@.len() ==> {
                    &&& fungible_assets(assets@.take(k as int))[i] matches RaffleAsset::Token {
                        token,
                        amount,
                        ..
                    }
                    &&& (#[trigger] r@[i]).token == fungible_assets(
                        assets@.take(k as int),
                    )[i]->Token_token
                    &&& r@[i].amount == fungible_assets(assets@.take(k as int))[i]->Token_amount
                    &&& r@[i].recipient@ == recipient@
                },
    {
        proof {
            assert(assets@.take(k + 1).drop_last() =~= assets@.take(k as int));
            assert(assets@.take(k + 1).last() == assets@[k as int]);
        }
        if let RaffleAsset::Token { token, amount, .. } = &assets[k] {
            r.push(
                TransferInstruction {
                    recipient: recipient.clone(),
                    token: token.duplicate(),
                    amount: *amount,
                },
            );
        }
    }
    proof {
        assert(assets@.take(n as int) =~= assets@);
    }
    r
}

} // verus!
