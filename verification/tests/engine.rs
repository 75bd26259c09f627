use raffle_engine::error::ContractError;
use raffle_engine::execute::{buy_tickets, cancel, choose_winner, claim_refund, transfer_ownership};
use raffle_engine::models::{
    ChainEnv, Coin, RaffleAsset, RaffleStatus, RaffleStyle, RoyaltyRecipient, TaxBeneficiary,
    Token, TokenAmount,
};
use raffle_engine::msg::InstantiateMsg;
use raffle_engine::state::{initialize, is_owner, ContractState};

fn style() -> RaffleStyle {
    RaffleStyle {
        ui_base_color: "fff".to_string(),
        ui_focus_color: None,
        font_color: None,
        bg_color: "000".to_string(),
        bg_src: None,
        font_family: None,
    }
}

fn prize() -> RaffleAsset {
    RaffleAsset::Token {
        token: Token::Native { denom: "ujuno".to_string() },
        amount: 5000,
        terms: None,
    }
}

fn msg_with(
    supply: Option<u32>,
    price: u128,
    deadline: Option<u64>,
    royalties: Vec<RoyaltyRecipient>,
    taxes: Vec<TaxBeneficiary>,
) -> InstantiateMsg {
    InstantiateMsg {
        owner: "operator".to_string(),
        ticket_supply: supply,
        ticket_sales_end_at: deadline,
        ticket_sales_target: None,
        royalties,
        taxes,
        raffle_name: "raffle".to_string(),
        org_name: None,
        org_wallet: None,
        org_logo_url: None,
        youtube_video_id: None,
        website: None,
        description: None,
        socials: None,
        terms: None,
        assets: vec![prize()],
        price: TokenAmount { token: Token::Native { denom: "ujuno".to_string() }, amount: price },
        style: style(),
    }
}

fn env_at(time_nanos: u64) -> ChainEnv {
    ChainEnv { time_nanos, height: 7, tx_index: Some(1) }
}

fn new_raffle(supply: Option<u32>, price: u128, deadline: Option<u64>) -> ContractState {
    initialize(&env_at(1), &"creator".to_string(), msg_with(supply, price, deadline, vec![], vec![]))
        .unwrap()
}

fn funds(amount: u128) -> Vec<Coin> {
    vec![Coin { denom: "ujuno".to_string(), amount }]
}

fn buy(state: &mut ContractState, buyer: &str, count: u32, price: u128) {
    let receipt = buy_tickets(
        state,
        &env_at(10),
        &buyer.to_string(),
        &funds(count as u128 * price),
        0,
        count,
        None,
        true,
    )
    .unwrap();
    assert_eq!(receipt.payment_due, count as u128 * price);
}

#[test]
fn initialize_rejects_zero_supply() {
    let r = initialize(
        &env_at(1),
        &"creator".to_string(),
        msg_with(Some(0), 100, None, vec![], vec![]),
    );
    assert!(matches!(r, Err(ContractError::InsufficientTicketSupply)));
}

#[test]
fn initialize_rejects_supply_below_target() {
    let mut m = msg_with(Some(5), 100, None, vec![], vec![]);
    m.ticket_sales_target = Some(9);
    let r = initialize(&env_at(1), &"creator".to_string(), m);
    assert!(matches!(r, Err(ContractError::InsufficientTicketSupply)));
}

#[test]
fn initialize_rejects_empty_assets() {
    let mut m = msg_with(Some(5), 100, None, vec![], vec![]);
    m.assets = vec![];
    let r = initialize(&env_at(1), &"creator".to_string(), m);
    match r {
        Err(ContractError::ValidationError { reason }) => {
            assert_eq!(reason.as_deref(), Some("at least one asset is required"));
        },
        _ => panic!("expected a validation error"),
    }
}

#[test]
fn initialize_rejects_royalties_over_hundred() {
    let royalties = vec![
        RoyaltyRecipient { name: None, address: "a".to_string(), pct: 60 },
        RoyaltyRecipient { name: None, address: "b".to_string(), pct: 41 },
    ];
    let r = initialize(
        &env_at(1),
        &"creator".to_string(),
        msg_with(Some(5), 100, None, royalties, vec![]),
    );
    match r {
        Err(ContractError::ValidationError { reason }) => {
            assert_eq!(reason.as_deref(), Some("royalty percentages exceed 100"));
        },
        _ => panic!("expected a validation error"),
    }
}

#[test]
fn initialize_rejects_taxes_over_denominator() {
    let taxes = vec![TaxBeneficiary { address: "t".to_string(), pct: 1_000_001 }];
    let r = initialize(
        &env_at(1),
        &"creator".to_string(),
        msg_with(Some(5), 100, None, vec![], taxes),
    );
    match r {
        Err(ContractError::ValidationError { reason }) => {
            assert_eq!(reason.as_deref(), Some("tax parts exceed the denominator"));
        },
        _ => panic!("expected a validation error"),
    }
}

#[test]
fn purchase_appends_order_and_aggregates() {
    let mut state = new_raffle(Some(10), 100, None);
    buy(&mut state, "alice", 2, 100);
    buy(&mut state, "bob", 3, 100);
    buy(&mut state, "alice", 1, 100);

    assert_eq!(state.raffle.tickets_sold, 6);
    assert_eq!(state.raffle.wallet_count, 2);
    assert_eq!(state.orders.len(), 3);
    // Cumulative counts are the strictly increasing running sums.
    let cums: Vec<u32> = state.orders.iter().map(|o| o.cumulative_count).collect();
    assert_eq!(cums, vec![2, 5, 6]);
    // Each wallet's aggregate is the sum of its orders.
    let alice = state.wallets.iter().find(|(a, _)| a == "alice").unwrap();
    assert_eq!(alice.1.ticket_count, 3);
    assert_eq!(alice.1.ticket_order_count, 2);
    let bob = state.wallets.iter().find(|(a, _)| a == "bob").unwrap();
    assert_eq!(bob.1.ticket_count, 3);
    assert_eq!(bob.1.ticket_order_count, 1);
}

#[test]
fn purchase_chains_the_seed() {
    let mut state = new_raffle(Some(10), 100, None);
    let seed0 = state.raffle.seed;
    buy(&mut state, "alice", 2, 100);
    assert_ne!(state.raffle.seed, seed0);
}

#[test]
fn purchase_rejects_zero_tickets() {
    let mut state = new_raffle(Some(10), 100, None);
    let r = buy_tickets(&mut state, &env_at(10), &"alice".to_string(), &funds(0), 0, 0, None, true);
    assert!(matches!(r, Err(ContractError::SoldOut)));
    assert_eq!(state.raffle.tickets_sold, 0);
}

#[test]
fn purchase_rejects_over_supply() {
    let mut state = new_raffle(Some(3), 100, None);
    buy(&mut state, "alice", 2, 100);
    let r = buy_tickets(
        &mut state,
        &env_at(10),
        &"bob".to_string(),
        &funds(200),
        0,
        2,
        None,
        true,
    );
    assert!(matches!(r, Err(ContractError::SoldOut)));
    assert_eq!(state.raffle.tickets_sold, 2);
}

#[test]
fn purchase_rejects_after_deadline() {
    let mut state = new_raffle(Some(10), 100, Some(50));
    let r = buy_tickets(
        &mut state,
        &env_at(50),
        &"alice".to_string(),
        &funds(100),
        0,
        1,
        None,
        true,
    );
    assert!(matches!(r, Err(ContractError::SalesPeriodOver)));
}

#[test]
fn purchase_rejects_missing_funds() {
    let mut state = new_raffle(Some(10), 100, None);
    let r = buy_tickets(
        &mut state,
        &env_at(10),
        &"alice".to_string(),
        &funds(99),
        0,
        1,
        None,
        true,
    );
    assert!(matches!(r, Err(ContractError::MissingFunds)));
}

#[test]
fn purchase_rejects_short_token_balance() {
    let mut m = msg_with(Some(10), 100, None, vec![], vec![]);
    m.price = TokenAmount { token: Token::Cw20 { address: "tokenc".to_string() }, amount: 100 };
    let mut state = initialize(&env_at(1), &"creator".to_string(), m).unwrap();
    let r = buy_tickets(&mut state, &env_at(10), &"alice".to_string(), &vec![], 99, 1, None, true);
    assert!(matches!(r, Err(ContractError::MissingFunds)));
    let ok = buy_tickets(&mut state, &env_at(10), &"alice".to_string(), &vec![], 100, 1, None, true);
    assert!(ok.is_ok());
}

#[test]
fn purchase_rejects_when_not_active() {
    let mut state = new_raffle(Some(10), 100, None);
    cancel(&mut state, &"operator".to_string()).unwrap();
    let r = buy_tickets(
        &mut state,
        &env_at(10),
        &"alice".to_string(),
        &funds(100),
        0,
        1,
        None,
        true,
    );
    assert!(matches!(r, Err(ContractError::NotActive)));
}

#[test]
fn choose_winner_on_empty_ledger_fails_already_claimed() {
    // Supply of ten, nothing sold: the draw fails and the status stays Active.
    let mut state = new_raffle(Some(10), 100, None);
    let r = choose_winner(&mut state, &env_at(10), &"operator".to_string());
    assert!(matches!(r, Err(ContractError::AlreadyClaimed)));
    assert_eq!(state.raffle.status, RaffleStatus::Active);
    assert!(state.raffle.winner_address.is_none());
}

#[test]
fn choose_winner_requires_operator() {
    let mut state = new_raffle(Some(10), 100, None);
    buy(&mut state, "alice", 1, 100);
    let r = choose_winner(&mut state, &env_at(10), &"mallory".to_string());
    assert!(matches!(r, Err(ContractError::NotAuthorized)));
}

#[test]
fn choose_winner_waits_for_deadline() {
    let mut state = new_raffle(Some(10), 100, Some(1_000));
    buy(&mut state, "alice", 1, 100);
    let r = choose_winner(&mut state, &env_at(10), &"operator".to_string());
    assert!(matches!(r, Err(ContractError::NotSoldOut)));
    assert_eq!(state.raffle.status, RaffleStatus::Active);
}

#[test]
fn choose_winner_sold_out_finalizes_early() {
    // Supply of three, all sold, deadline far in the future: finalize now.
    let mut state = new_raffle(Some(3), 100, Some(1_000_000));
    buy(&mut state, "alice", 2, 100);
    buy(&mut state, "bob", 1, 100);
    let r = choose_winner(&mut state, &env_at(10), &"operator".to_string());
    assert!(r.is_ok());
    assert_eq!(state.raffle.status, RaffleStatus::Complete);
    let winner = state.raffle.winner_address.clone().unwrap();
    assert!(winner == "alice" || winner == "bob");
}

#[test]
fn choose_winner_cannot_run_twice() {
    let mut state = new_raffle(Some(2), 100, None);
    buy(&mut state, "alice", 2, 100);
    choose_winner(&mut state, &env_at(10), &"operator".to_string()).unwrap();
    let r = choose_winner(&mut state, &env_at(11), &"operator".to_string());
    assert!(matches!(r, Err(ContractError::NotActive)));
}

#[test]
fn choose_winner_pays_prize_royalties_and_taxes() {
    let royalties = vec![
        RoyaltyRecipient { name: None, address: "roy_a".to_string(), pct: 60 },
        RoyaltyRecipient { name: None, address: "roy_b".to_string(), pct: 40 },
    ];
    let taxes = vec![
        TaxBeneficiary { address: "tax_a".to_string(), pct: 50_000 },
        TaxBeneficiary { address: "tax_b".to_string(), pct: 50_000 },
    ];
    let mut state = initialize(
        &env_at(1),
        &"creator".to_string(),
        msg_with(Some(10), 100, None, royalties, taxes),
    )
    .unwrap();
    buy(&mut state, "alice", 10, 100);
    let instrs = choose_winner(&mut state, &env_at(10), &"operator".to_string()).unwrap();
    // Pot is 1000: taxes take 5% twice (50 + 50), royalties split the
    // remaining 900 as 60% and 40%.
    assert_eq!(instrs.len(), 5);
    assert_eq!(instrs[0].recipient, "alice");
    assert_eq!(instrs[0].amount, 5000);
    assert_eq!(instrs[1].recipient, "roy_a");
    assert_eq!(instrs[1].amount, 540);
    assert_eq!(instrs[2].recipient, "roy_b");
    assert_eq!(instrs[2].amount, 360);
    assert_eq!(instrs[3].recipient, "tax_a");
    assert_eq!(instrs[3].amount, 50);
    assert_eq!(instrs[4].recipient, "tax_b");
    assert_eq!(instrs[4].amount, 50);
}

#[test]
fn cancel_requires_operator() {
    let mut state = new_raffle(Some(10), 100, None);
    let r = cancel(&mut state, &"mallory".to_string());
    assert!(matches!(r, Err(ContractError::NotAuthorized)));
    assert_eq!(state.raffle.status, RaffleStatus::Active);
}

#[test]
fn cancel_returns_prizes_to_operator() {
    let mut state = new_raffle(Some(10), 100, None);
    let instrs = cancel(&mut state, &"operator".to_string()).unwrap();
    assert_eq!(state.raffle.status, RaffleStatus::Canceled);
    assert_eq!(instrs.len(), 1);
    assert_eq!(instrs[0].recipient, "operator");
    assert_eq!(instrs[0].amount, 5000);
}

#[test]
fn refund_pays_once_then_fails_already_claimed() {
    // A wallet that bought five tickets at a unit price of one hundred gets
    // one transfer of five hundred; asking again fails.
    let mut state = new_raffle(Some(10), 100, None);
    buy(&mut state, "alice", 5, 100);
    cancel(&mut state, &"operator".to_string()).unwrap();

    let instrs = claim_refund(&mut state, &"alice".to_string()).unwrap();
    assert_eq!(instrs.len(), 1);
    assert_eq!(instrs[0].recipient, "alice");
    assert_eq!(instrs[0].amount, 500);

    let again = claim_refund(&mut state, &"alice".to_string());
    assert!(matches!(again, Err(ContractError::AlreadyClaimed)));
}

#[test]
fn refund_requires_canceled_raffle() {
    let mut state = new_raffle(Some(10), 100, None);
    buy(&mut state, "alice", 5, 100);
    let r = claim_refund(&mut state, &"alice".to_string());
    assert!(matches!(r, Err(ContractError::NotAuthorized)));
}

#[test]
fn refund_for_stranger_fails_without_mutation() {
    // The wallet aggregate must exist: a sender that never bought is turned
    // away and no claim is recorded, so a later real buyer flow is untouched.
    let mut state = new_raffle(Some(10), 100, None);
    buy(&mut state, "alice", 5, 100);
    cancel(&mut state, &"operator".to_string()).unwrap();
    let denied = claim_refund(&mut state, &"nobody".to_string());
    assert!(matches!(denied, Err(ContractError::NotAuthorized)));
    assert!(state.refund_claims.is_empty());
    let alice = claim_refund(&mut state, &"alice".to_string()).unwrap();
    assert_eq!(alice[0].amount, 500);
}

#[test]
fn ownership_transfer_replaces_operator() {
    let mut state = new_raffle(Some(10), 100, None);
    let denied = transfer_ownership(&mut state, &"mallory".to_string(), &"mallory".to_string());
    assert!(matches!(denied, Err(ContractError::NotAuthorized)));
    transfer_ownership(&mut state, &"operator".to_string(), &"successor".to_string()).unwrap();
    assert!(is_owner(&state, &"successor".to_string()));
    assert!(!is_owner(&state, &"operator".to_string()));
}

#[test]
fn sold_out_flag_follows_supply() {
    let mut state = new_raffle(Some(2), 100, None);
    assert!(!state.raffle.is_sold_out());
    buy(&mut state, "alice", 2, 100);
    assert!(state.raffle.is_sold_out());
    let unlimited = new_raffle(None, 100, None);
    assert!(!unlimited.raffle.is_sold_out());
}
