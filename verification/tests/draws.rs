use raffle_engine::execute::buy_tickets;
use raffle_engine::models::{
    ChainEnv, Coin, RaffleAsset, RaffleStyle, Token, TokenAmount, TicketOrder,
};
use raffle_engine::msg::InstantiateMsg;
use raffle_engine::query::{refund_status, select, test_random};
use raffle_engine::selection::{bisection_lookup, draw_winner, resolve_multiple_winners};
use raffle_engine::seed::{seed_for_creation, seed_for_purchase, DrawStream};
use raffle_engine::state::{initialize, ContractState};

fn env_at(time_nanos: u64) -> ChainEnv {
    ChainEnv { time_nanos, height: 7, tx_index: Some(1) }
}

fn new_raffle(supply: Option<u32>, price: u128) -> ContractState {
    let msg = InstantiateMsg {
        owner: "operator".to_string(),
        ticket_supply: supply,
        ticket_sales_end_at: None,
        ticket_sales_target: None,
        royalties: vec![],
        taxes: vec![],
        raffle_name: "raffle".to_string(),
        org_name: None,
        org_wallet: None,
        org_logo_url: None,
        youtube_video_id: None,
        website: None,
        description: None,
        socials: None,
        terms: None,
        assets: vec![RaffleAsset::Token {
            token: Token::Native { denom: "ujuno".to_string() },
            amount: 5000,
            terms: None,
        }],
        price: TokenAmount { token: Token::Native { denom: "ujuno".to_string() }, amount: price },
        style: RaffleStyle {
            ui_base_color: "fff".to_string(),
            ui_focus_color: None,
            font_color: None,
            bg_color: "000".to_string(),
            bg_src: None,
            font_family: None,
        },
    };
    initialize(&env_at(1), &"creator".to_string(), msg).unwrap()
}

fn buy(state: &mut ContractState, buyer: &str, count: u32, price: u128) {
    buy_tickets(
        state,
        &env_at(10),
        &buyer.to_string(),
        &vec![Coin { denom: "ujuno".to_string(), amount: count as u128 * price }],
        0,
        count,
        None,
        true,
    )
    .unwrap();
}

fn order(addr: &str, count: u32, cumulative: u32) -> TicketOrder {
    TicketOrder {
        address: addr.to_string(),
        count,
        cumulative_count: cumulative,
        is_visible: true,
        message: None,
    }
}

#[test]
fn bisection_finds_single_order() {
    let orders = vec![order("alice", 4, 4)];
    for x in 0..4 {
        assert_eq!(bisection_lookup(&orders, x), 0);
    }
}

#[test]
fn bisection_finds_skewed_orders() {
    // One tiny order, one huge, one tiny: each ticket lands in the one order
    // whose half-open interval contains it.
    let orders = vec![order("a", 1, 1), order("b", 1000, 1001), order("c", 2, 1003)];
    assert_eq!(bisection_lookup(&orders, 0), 0);
    assert_eq!(bisection_lookup(&orders, 1), 1);
    assert_eq!(bisection_lookup(&orders, 500), 1);
    assert_eq!(bisection_lookup(&orders, 1000), 1);
    assert_eq!(bisection_lookup(&orders, 1001), 2);
    assert_eq!(bisection_lookup(&orders, 1002), 2);
}

#[test]
fn bisection_covers_every_ticket() {
    let orders = vec![order("a", 3, 3), order("b", 2, 5), order("c", 7, 12)];
    for x in 0..12u32 {
        let i = bisection_lookup(&orders, x);
        let lo = orders[i].cumulative_count - orders[i].count;
        assert!(lo <= x && x < orders[i].cumulative_count);
    }
}

#[test]
fn draw_is_deterministic() {
    // Identical seed, ledger, and draw entropy always select the same winner.
    let mut state = new_raffle(Some(10), 100);
    buy(&mut state, "alice", 4, 100);
    buy(&mut state, "bob", 6, 100);
    let w1 = draw_winner(&state.raffle, &state.orders, &"caller".to_string(), &env_at(42));
    let w2 = draw_winner(&state.raffle, &state.orders, &"caller".to_string(), &env_at(42));
    assert_eq!(w1, w2);
    assert!(w1 == "alice" || w1 == "bob");
}

#[test]
fn seed_mix_is_deterministic_and_order_sensitive() {
    let env = env_at(42);
    let s1 = seed_for_creation("creator", &env);
    let s2 = seed_for_creation("creator", &env);
    assert_eq!(s1, s2);
    // Changing an input changes the seed.
    assert_ne!(s1, seed_for_creation("creatox", &env));
    // Reordering the chained inputs changes the seed.
    let a = seed_for_purchase(s1, "message", "buyer", &env);
    let b = seed_for_purchase(s1, "buyer", "message", &env);
    assert_ne!(a, b);
    // Regrouping text across the input boundary changes the seed too.
    let c = seed_for_purchase(s1, "messag", "ebuyer", &env);
    assert_ne!(a, c);
}

#[test]
fn draw_stream_replays_identically() {
    let mut s1 = DrawStream::reseed(99);
    let mut s2 = DrawStream::reseed(99);
    for _ in 0..10 {
        assert_eq!(s1.next_value(), s2.next_value());
    }
    let mut s3 = DrawStream::reseed(100);
    assert_ne!(DrawStream::reseed(99).next_value(), s3.next_value());
}

#[test]
fn multi_draw_returns_requested_count() {
    let mut state = new_raffle(Some(10), 100);
    buy(&mut state, "alice", 4, 100);
    buy(&mut state, "bob", 6, 100);
    let winners =
        resolve_multiple_winners(&state.raffle, &state.wallets, &"caller".to_string(), &env_at(42), 25);
    assert_eq!(winners.len(), 25);
    for w in winners.iter() {
        assert!(w == "alice" || w == "bob");
    }
    // Same inputs, same draws.
    let again =
        resolve_multiple_winners(&state.raffle, &state.wallets, &"caller".to_string(), &env_at(42), 25);
    assert_eq!(winners, again);
}

#[test]
fn diagnostic_tally_accounts_for_every_draw() {
    let mut state = new_raffle(Some(100), 1);
    buy(&mut state, "alice", 80, 1);
    buy(&mut state, "bob", 20, 1);
    let resp = test_random(&state, &env_at(42));
    assert!(!resp.results.is_empty());
    let total: u32 = resp.results.iter().map(|(_, c)| *c).sum();
    assert_eq!(total, 100);
    for (addr, count) in resp.results.iter() {
        assert!(addr == "alice" || addr == "bob");
        assert!(*count >= 1);
    }
}

#[test]
fn diagnostic_tally_empty_without_sales() {
    let state = new_raffle(Some(10), 100);
    let resp = test_random(&state, &env_at(42));
    assert!(resp.results.is_empty());
}

#[test]
fn refund_status_defaults_false() {
    let state = new_raffle(Some(10), 100);
    let resp = refund_status(&state, &"anyone".to_string());
    assert!(!resp.has_claimed);
}

#[test]
fn select_returns_everything_by_default() {
    let mut state = new_raffle(Some(10), 100);
    buy(&mut state, "alice", 2, 100);
    buy(&mut state, "bob", 5, 100);
    let resp = select(&state, &None, &None);
    assert_eq!(resp.owner.as_deref(), Some("operator"));
    assert_eq!(resp.raffle.unwrap().tickets_sold, 7);
    assert!(resp.marketing.is_some());
    assert_eq!(resp.orders.unwrap().len(), 2);
    assert_eq!(resp.royalties.unwrap().len(), 0);
    // Wallet views come sorted by largest holding first, addresses filled in.
    let wallets = resp.wallets.unwrap();
    assert_eq!(wallets.len(), 2);
    assert_eq!(wallets[0].ticket_count, 5);
    assert_eq!(wallets[0].address.as_deref(), Some("bob"));
    assert_eq!(wallets[1].ticket_count, 2);
    assert_eq!(wallets[1].address.as_deref(), Some("alice"));
}

#[test]
fn select_honours_the_field_list() {
    let state = new_raffle(Some(10), 100);
    let fields = Some(vec!["owner".to_string(), "raffle".to_string()]);
    let resp = select(&state, &fields, &None);
    assert!(resp.owner.is_some());
    assert!(resp.raffle.is_some());
    assert!(resp.marketing.is_none());
    assert!(resp.orders.is_none());
    assert!(resp.wallets.is_none());
    assert!(resp.royalties.is_none());
}
