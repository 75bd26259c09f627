use vstd::prelude::*;

use crate::models::{
    Raffle, RaffleAsset, RaffleMarketingInfo, RaffleStyle, RoyaltyRecipient, SocialMediaUrl,
    TaxBeneficiary, TicketOrder, TokenAmount, WalletMetadata,
};

verus! {

/// Everything a raffle is created with. The engine validates it and builds
/// the initial state; the host supplies it however it was carried.
#[derive(Clone, Debug)]
pub struct InstantiateMsg {
    pub owner: String,
    pub ticket_supply: Option<u32>,
    pub ticket_sales_end_at: Option<u64>,
    pub ticket_sales_target: Option<u32>,
    pub royalties: Vec<RoyaltyRecipient>,
    pub taxes: Vec<TaxBeneficiary>,
    pub raffle_name: String,
    pub org_name: Option<String>,
    pub org_wallet: Option<String>,
    pub org_logo_url: Option<String>,
    pub youtube_video_id: Option<String>,
    pub website: Option<String>,
    pub description: Option<String>,
    pub socials: Option<Vec<SocialMediaUrl>>,
    pub terms: Option<String>,
    pub assets: Vec<RaffleAsset>,
    pub price: TokenAmount,
    pub style: RaffleStyle,
}

/// The operations a raffle accepts, one per invocation.
#[derive(Clone, Debug)]
pub enum ExecuteMsg {
    TransferOwnership { new_owner: String },
    BuyTickets { count: u32, message: Option<String>, is_visible: bool },
    ChooseWinner {},
    Cancel {},
    ClaimRefund {},
    UpdateMarketing { marketing: RaffleMarketingInfo },
}

/// The read-only queries a raffle answers.
#[derive(Clone, Debug)]
pub enum QueryMsg {
    Select { fields: Option<Vec<String>>, wallet: Option<String> },
    RefundStatus { claimant: String },
    Random {},
}

/// Schema migrations carry nothing the engine reads.
#[derive(Clone, Debug)]
pub struct MigrateMsg {}

/// The state view the `Select` query returns; each field is present when the
/// query named it (or named no fields at all).
#[derive(Clone, Debug)]
pub struct SelectResponse {
    pub owner: Option<String>,
    pub raffle: Option<Raffle>,
    pub marketing: Option<RaffleMarketingInfo>,
    pub orders: Option<Vec<TicketOrder>>,
    pub wallets: Option<Vec<WalletMetadata>>,
    pub royalties: Option<Vec<RoyaltyRecipient>>,
}

/// Whether a wallet has already claimed its refund.
#[derive(Clone, Debug)]
pub struct RefundStatusResponse {
    pub has_claimed: bool,
}

/// Diagnostic draw statistics: how often each wallet came up in a batch of
/// simulated draws.
#[derive(Clone, Debug)]
pub struct RandomResponse {
    pub results: Vec<(String, u32)>,
}

/// One answer per query kind; the host serializes it.
#[derive(Clone, Debug)]
pub enum QueryAnswer {
    Select(SelectResponse),
    RefundStatus(RefundStatusResponse),
    Random(RandomResponse),
}

} // verus!
