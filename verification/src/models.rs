use vstd::prelude::*;

use crate::error::ContractError;

verus! {

pub type ContractResult<T> = Result<T, ContractError>;

/// Lifecycle phase of a raffle: sales are open while `Active`; a winner draw
/// moves it to `Complete`; cancellation moves it to `Canceled`. Both terminal
/// states are irreversible.
#[derive(Clone, Copy, Debug, PartialEq, Eq, Structural)]
pub enum RaffleStatus {
    Active,
    Complete,
    Canceled,
}

/// A party entitled to a percentage of the post-tax proceeds, fixed when the
/// raffle is created. `pct` is a percentage of the post-tax remainder, so the
/// recipients' percentages must sum to at most 100.
#[derive(Clone, Debug)]
pub struct RoyaltyRecipient {
    pub name: Option<String>,
    pub address: String,
    pub pct: u8,
}

/// Denominator for tax-beneficiary percentages: a beneficiary with
/// `pct` receives `pot * pct / TAX_PCT_DENOM`.
pub const TAX_PCT_DENOM: u32 = 1_000_000;

/// A fixed beneficiary of the sales pot, configured when the raffle is
/// created. `pct` is in parts per [`TAX_PCT_DENOM`] of the whole pot, and the
/// beneficiaries' parts must sum to at most [`TAX_PCT_DENOM`].
#[derive(Clone, Debug)]
pub struct TaxBeneficiary {
    pub address: String,
    pub pct: u32,
}

/// Blockchain network an NFT prize lives on. Display metadata only.
#[derive(Clone, Copy, Debug, PartialEq, Eq, Structural)]
pub enum Network {
    Stargaze,
    Teritori,
    Juno,
}

/// Colors and fonts for hosts that render the raffle. Display metadata only.
#[derive(Clone, Debug)]
pub struct RaffleStyle {
    pub ui_base_color: String,
    pub ui_focus_color: Option<String>,
    pub font_color: Option<String>,
    pub bg_color: String,
    pub bg_src: Option<String>,
    pub font_family: Option<String>,
}

/// A social-media link of the organizer. Display metadata only.
#[derive(Clone, Debug)]
pub enum SocialMediaUrl {
    Instagram(String),
    Facebook(String),
    Tiktok(String),
    Linkedin(String),
    Github(String),
    Reddit(String),
    Youtube(String),
    Twitter(String),
    Discord(String),
    Telegram(String),
}

/// The settlement kind of a fungible amount: the chain's native currency,
/// named by denomination, or a custom token ledger, named by the address of
/// the contract that keeps it.
#[derive(Clone, Debug)]
pub enum Token {
    Native { denom: String },
    Cw20 { address: String },
}

/// An amount of one [`Token`]; the unit ticket price is one of these.
#[derive(Clone, Debug)]
pub struct TokenAmount {
    pub token: Token,
    pub amount: u128,
}

/// One entry of the funds a buyer attaches to a purchase in native currency.
#[derive(Clone, Debug)]
pub struct Coin {
    pub denom: String,
    pub amount: u128,
}

/// A prize held by the raffle. Only the `Token` variant is fungible and
/// transferred by settlement instructions; the other two are display records
/// whose delivery is settled off-engine.
#[derive(Clone, Debug)]
pub enum RaffleAsset {
    Token {
        token: Token,
        amount: u128,
        terms: Option<String>,
    },
    Nft {
        network: Network,
        url: Option<String>,
        collection_address: String,
        token_id: String,
        terms: Option<String>,
        image_url: Option<String>,
    },
    Asset {
        name: String,
        description: Option<String>,
        url: Option<String>,
        image: Option<String>,
        address: Option<String>,
        terms: Option<String>,
    },
}

/// One purchase's record: appended once, never mutated or removed.
/// `cumulative_count` is the number of tickets sold through and including
/// this order, so the order owns the half-open ticket interval
/// `[cumulative_count - count, cumulative_count)`.
#[derive(Clone, Debug)]
pub struct TicketOrder {
    pub address: String,
    pub count: u32,
    pub cumulative_count: u32,
    pub is_visible: bool,
    pub message: Option<String>,
}

/// The raffle's own record: configuration fixed at creation, running
/// counters, the current seed of the seed chain, and the winner once drawn.
#[derive(Clone, Debug)]
pub struct Raffle {
    pub price: TokenAmount,
    pub assets: Vec<RaffleAsset>,
    pub status: RaffleStatus,
    pub ticket_supply: Option<u32>,
    pub ticket_sales_end_at: Option<u64>,
    pub ticket_sales_target: Option<u32>,
    pub winner_address: Option<String>,
    pub tickets_sold: u32,
    pub wallet_count: u32,
    pub seed: u64,
}

impl Raffle {
    pub open spec fn is_sold_out_spec(&self) -> bool {
        match self.ticket_supply {
            Some(n) => n == self.tickets_sold,
            None => false,
        }
    }

    /// A raffle without a finite supply is never sold out.
    pub fn is_sold_out(&self) -> (r: bool)
        ensures
            r == self.is_sold_out_spec(),
    {
        if let Some(n) = self.ticket_supply {
            return n == self.tickets_sold;
        }
        false
    }
}

/// Organizer-facing display metadata; never read by the engine's rules.
#[derive(Clone, Debug)]
pub struct RaffleMarketingInfo {
    pub style: RaffleStyle,
    pub raffle_name: String,
    pub org_name: Option<String>,
    pub org_logo_url: Option<String>,
    pub org_wallet: Option<String>,
    pub youtube_video_id: Option<String>,
    pub website: Option<String>,
    pub description: Option<String>,
    pub socials: Option<Vec<SocialMediaUrl>>,
}

/// Per-buyer aggregate: total tickets owned, number of orders placed, and the
/// refund flag that is set at most once.
#[derive(Clone, Debug)]
pub struct WalletMetadata {
    pub has_agreed_to_terms: bool,
    pub ticket_order_count: u16,
    pub ticket_count: u32,
    pub address: Option<String>,
    pub display_message: Option<String>,
    pub has_claimed_refund: bool,
}

/// One payout the host must execute: send `amount` of `token` to
/// `recipient`. The engine only computes these; it never moves funds.
#[derive(Clone, Debug)]
pub struct TransferInstruction {
    pub recipient: String,
    pub token: Token,
    pub amount: u128,
}

/// Replay-stable facts about the block an invocation executes in. All
/// entropy the engine mixes comes from here and from the caller: replicas
/// replaying the same history see the same values.
#[derive(Clone, Debug)]
pub struct ChainEnv {
    pub time_nanos: u64,
    pub height: u64,
    pub tx_index: Option<u64>,
}

impl ChainEnv {
    /// The transaction ordinal used as entropy; histories recorded without
    /// one mix in zero.
    pub open spec fn tx_ordinal_spec(&self) -> u64 {
        match self.tx_index {
            Some(i) => i,
            None => 0,
        }
    }

    pub fn tx_ordinal(&self) -> (r: u64)
        ensures
            r == self.tx_ordinal_spec(),
    {
        match self.tx_index {
            Some(i) => i,
            None => 0,
        }
    }
}

// Verus learns nothing from the derived `Clone` of a type with owned fields,
// so the types the queries copy out of the state get explicit duplication
// with a proved equality.

/// Copy an optional text; the copy is equal to the original.
pub fn duplicate_opt_string(m: &Option<String>) -> (r: Option<String>)
    ensures
        r == *m,
{
    match m {
        Some(s) => Some(s.clone()),
        None => None,
    }
}

impl Token {
    /// Rebuild the token value; the copy is equal to the original.
    pub fn duplicate(&self) -> (r: Token)
        ensures
            r == *self,
    {
        match self {
            Token::Native { denom } => Token::Native { denom: denom.clone() },
            Token::Cw20 { address } => Token::Cw20 { address: address.clone() },
        }
    }
}

impl TokenAmount {
    pub fn duplicate(&self) -> (r: TokenAmount)
        ensures
            r == *self,
    {
        TokenAmount { token: self.token.duplicate(), amount: self.amount }
    }
}

impl RoyaltyRecipient {
    pub fn duplicate(&self) -> (r: RoyaltyRecipient)
        ensures
            r == *self,
    {
        RoyaltyRecipient {
            name: duplicate_opt_string(&self.name),
            address: self.address.clone(),
            pct: self.pct,
        }
    }
}

impl SocialMediaUrl {
    pub fn duplicate(&self) -> (r: SocialMediaUrl)
        ensures
            r == *self,
    {
        match self {
            SocialMediaUrl::Instagram(s) => SocialMediaUrl::Instagram(s.clone()),
            SocialMediaUrl::Facebook(s) => SocialMediaUrl::Facebook(s.clone()),
            SocialMediaUrl::Tiktok(s) => SocialMediaUrl::Tiktok(s.clone()),
            SocialMediaUrl::Linkedin(s) => SocialMediaUrl::Linkedin(s.clone()),
            SocialMediaUrl::Github(s) => SocialMediaUrl::Github(s.clone()),
            SocialMediaUrl::Reddit(s) => SocialMediaUrl::Reddit(s.clone()),
            SocialMediaUrl::Youtube(s) => SocialMediaUrl::Youtube(s.clone()),
            SocialMediaUrl::Twitter(s) => SocialMediaUrl::Twitter(s.clone()),
            SocialMediaUrl::Discord(s) => SocialMediaUrl::Discord(s.clone()),
            SocialMediaUrl::Telegram(s) => SocialMediaUrl::Telegram(s.clone()),
        }
    }
}

impl RaffleStyle {
    pub fn duplicate(&self) -> (r: RaffleStyle)
        ensures
            r == *self,
    {
        RaffleStyle {
            ui_base_color: self.ui_base_color.clone(),
            ui_focus_color: duplicate_opt_string(&self.ui_focus_color),
            font_color: duplicate_opt_string(&self.font_color),
            bg_color: self.bg_color.clone(),
            bg_src: duplicate_opt_string(&self.bg_src),
            font_family: duplicate_opt_string(&self.font_family),
        }
    }
}

impl RaffleAsset {
    pub fn duplicate(&self) -> (r: RaffleAsset)
        ensures
            r == *self,
    {
        match self {
            RaffleAsset::Token { token, amount, terms } => RaffleAsset::Token {
                token: token.duplicate(),
                amount: *amount,
                terms: duplicate_opt_string(terms),
            },
            RaffleAsset::Nft { network, url, collection_address, token_id, terms, image_url } => RaffleAsset::Nft {
                network: *network,
                url: duplicate_opt_string(url),
                collection_address: collection_address.clone(),
                token_id: token_id.clone(),
                terms: duplicate_opt_string(terms),
                image_url: duplicate_opt_string(image_url),
            },
            RaffleAsset::Asset { name, description, url, image, address, terms } => RaffleAsset::Asset {
                name: name.clone(),
                description: duplicate_opt_string(description),
                url: duplicate_opt_string(url),
                image: duplicate_opt_string(image),
                address: duplicate_opt_string(address),
                terms: duplicate_opt_string(terms),
            },
        }
    }
}

impl TicketOrder {
    pub fn duplicate(&self) -> (r: TicketOrder)
        ensures
            r == *self,
    {
        TicketOrder {
            address: self.address.clone(),
            count: self.count,
            cumulative_count: self.cumulative_count,
            is_visible: self.is_visible,
            message: duplicate_opt_string(&self.message),
        }
    }
}

impl WalletMetadata {
    pub fn duplicate(&self) -> (r: WalletMetadata)
        ensures
            r == *self,
    {
        WalletMetadata {
            has_agreed_to_terms: self.has_agreed_to_terms,
            ticket_order_count: self.ticket_order_count,
            ticket_count: self.ticket_count,
            address: duplicate_opt_string(&self.address),
            display_message: duplicate_opt_string(&self.display_message),
            has_claimed_refund: self.has_claimed_refund,
        }
    }
}

/// Whether two raffle records carry the same data. Value equality except on
/// the asset list, which is compared element by element: a rebuilt list is a
/// different vector carrying equal assets.
pub open spec fn raffle_equal(a: Raffle, b: Raffle) -> bool {
    &&& a.price == b.price
    &&& a.assets@ == b.assets@
    &&& a.status == b.status
    &&& a.ticket_supply == b.ticket_supply
    &&& a.ticket_sales_end_at == b.ticket_sales_end_at
    &&& a.ticket_sales_target == b.ticket_sales_target
    &&& a.winner_address == b.winner_address
    &&& a.tickets_sold == b.tickets_sold
    &&& a.wallet_count == b.wallet_count
    &&& a.seed == b.seed
}

/// Whether two marketing records carry the same data, the social list
/// compared element by element.
pub open spec fn marketing_equal(a: RaffleMarketingInfo, b: RaffleMarketingInfo) -> bool {
    &&& a.style == b.style
    &&& a.raffle_name == b.raffle_name
    &&& a.org_name == b.org_name
    &&& a.org_logo_url == b.org_logo_url
    &&& a.org_wallet == b.org_wallet
    &&& a.youtube_video_id == b.youtube_video_id
    &&& a.website == b.website
    &&& a.description == b.description
    &&& match (a.socials, b.socials) {
        (Some(sa), Some(sb)) => sa@ == sb@,
        (None, None) => true,
        _ => false,
    }
}

impl Raffle {
    pub fn duplicate(&self) -> (r: Raffle)
        ensures
            raffle_equal(r, *self),
    {
        let n = self.assets.len();
        let mut assets: Vec<RaffleAsset> = Vec::new();
        for i in 0..n
            invariant
                n == self.assets@.len(),
                assets@.len() == i,
                forall|j: int| 0 <= j < i ==> #[trigger] assets@[j] == self.assets@[j],
        {
            assets.push(self.assets[i].duplicate());
        }
        proof {
            assert(assets@ =~= self.assets@);
        }
        Raffle {
            price: self.price.duplicate(),
            assets,
            status: self.status,
            ticket_supply: self.ticket_supply,
            ticket_sales_end_at: self.ticket_sales_end_at,
            ticket_sales_target: self.ticket_sales_target,
            winner_address: duplicate_opt_string(&self.winner_address),
            tickets_sold: self.tickets_sold,
            wallet_count: self.wallet_count,
            seed: self.seed,
        }
    }
}

impl RaffleMarketingInfo {
    pub fn duplicate(&self) -> (r: RaffleMarketingInfo)
        ensures
            marketing_equal(r, *self),
    {
        let socials = match &self.socials {
            Some(list) => {
                let n = list.len();
                let mut out: Vec<SocialMediaUrl> = Vec::new();
                for i in 0..n
                    invariant
                        n == list@.len(),
                        out@.len() == i,
                        forall|j: int| 0 <= j < i ==> #[trigger] out@[j] == list@[j],
                {
                    out.push(list[i].duplicate());
                }
                proof {
                    assert(out@ =~= list@);
                }
                Some(out)
            },
            None => None,
        };
        RaffleMarketingInfo {
            style: self.style.duplicate(),
            raffle_name: self.raffle_name.clone(),
            org_name: duplicate_opt_string(&self.org_name),
            org_logo_url: duplicate_opt_string(&self.org_logo_url),
            org_wallet: duplicate_opt_string(&self.org_wallet),
            youtube_video_id: duplicate_opt_string(&self.youtube_video_id),
            website: duplicate_opt_string(&self.website),
            description: duplicate_opt_string(&self.description),
            socials,
        }
    }
}

/// What a successful purchase hands back: the payment the host must now
/// collect from the buyer, and the appended order's cumulative count.
#[derive(Clone, Debug)]
pub struct PurchaseReceipt {
    pub payment_due: u128,
    pub cumulative_count: u32,
}

} // verus!
