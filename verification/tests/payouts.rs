use raffle_engine::distribution::{
    compute_royalty_payouts, compute_tax_payouts, prize_payouts, total_tax_amount,
};
use raffle_engine::models::{
    Network, RaffleAsset, RoyaltyRecipient, TaxBeneficiary, Token,
};

fn native() -> Token {
    Token::Native { denom: "ujuno".to_string() }
}

fn tax(addr: &str, pct: u32) -> TaxBeneficiary {
    TaxBeneficiary { address: addr.to_string(), pct }
}

fn roy(addr: &str, pct: u8) -> RoyaltyRecipient {
    RoyaltyRecipient { name: None, address: addr.to_string(), pct }
}

#[test]
fn even_split_distributes_the_whole_pot() {
    // Pot of one thousand: a ten percent tax (one hundred), then sixty and
    // forty percent of the remaining nine hundred.
    let pot: u128 = 1000;
    let taxes = vec![tax("t", 100_000)];
    let total_tax = total_tax_amount(pot, &taxes);
    assert_eq!(total_tax, 100);

    let tax_instrs = compute_tax_payouts(pot, &native(), &taxes);
    assert_eq!(tax_instrs.len(), 1);
    assert_eq!(tax_instrs[0].amount, 100);
    assert_eq!(tax_instrs[0].recipient, "t");

    let base = pot - total_tax;
    let royalties = vec![roy("a", 60), roy("b", 40)];
    let roy_instrs = compute_royalty_payouts(base, &native(), &royalties);
    assert_eq!(roy_instrs.len(), 2);
    assert_eq!(roy_instrs[0].amount, 540);
    assert_eq!(roy_instrs[1].amount, 360);

    let distributed: u128 =
        total_tax + roy_instrs.iter().map(|i| i.amount).sum::<u128>();
    assert_eq!(distributed, pot);
}

#[test]
fn indivisible_pot_drifts_less_than_one_unit_per_recipient() {
    // A pot that no percentage divides evenly: everything paid out stays at
    // or below the pot, short of it by less than one unit per recipient.
    let pot: u128 = 997;
    let taxes = vec![tax("t1", 33_333), tax("t2", 66_667)];
    let total_tax = total_tax_amount(pot, &taxes);
    let base = pot - total_tax;
    let royalties = vec![roy("a", 33), roy("b", 33), roy("c", 34)];
    let roy_instrs = compute_royalty_payouts(base, &native(), &royalties);
    let distributed: u128 =
        total_tax + roy_instrs.iter().map(|i| i.amount).sum::<u128>();
    assert!(distributed <= pot);
    assert!(pot - distributed < 5);
}

#[test]
fn percentage_cut_floors_the_quotient() {
    // Thirty-three percent of ten is 3.3, floored to three: a cut that only
    // handed its input back unchanged would return ten.
    let instrs = compute_royalty_payouts(10, &native(), &vec![roy("a", 33)]);
    assert_eq!(instrs[0].amount, 3);
    // Five percent of the largest even pot exercises the full-width product.
    let big = u128::MAX - 1;
    let cut = compute_tax_payouts(big, &native(), &vec![tax("t", 50_000)]);
    assert_eq!(cut[0].amount, big / 20);
}

#[test]
fn zero_percent_and_zero_pot_pay_nothing() {
    assert_eq!(total_tax_amount(0, &vec![tax("t", 100_000)]), 0);
    assert_eq!(total_tax_amount(1000, &vec![tax("t", 0)]), 0);
    let instrs = compute_royalty_payouts(0, &native(), &vec![roy("a", 100)]);
    assert_eq!(instrs[0].amount, 0);
}

#[test]
fn prizes_cover_exactly_the_fungible_assets() {
    let assets = vec![
        RaffleAsset::Token { token: native(), amount: 7, terms: None },
        RaffleAsset::Nft {
            network: Network::Juno,
            url: None,
            collection_address: "coll".to_string(),
            token_id: "1".to_string(),
            terms: None,
            image_url: None,
        },
        RaffleAsset::Token {
            token: Token::Cw20 { address: "tok".to_string() },
            amount: 9,
            terms: None,
        },
    ];
    let instrs = prize_payouts(&assets, &"winner".to_string());
    assert_eq!(instrs.len(), 2);
    assert_eq!(instrs[0].amount, 7);
    assert!(matches!(instrs[0].token, Token::Native { .. }));
    assert_eq!(instrs[1].amount, 9);
    assert!(matches!(instrs[1].token, Token::Cw20 { .. }));
    assert_eq!(instrs[0].recipient, "winner");
}
