use vstd::prelude::*;

verus! {

/// Every way an invocation of the engine can fail. A failed invocation leaves
/// the raffle state exactly as it was: callers may retry or give up, the
/// engine never retries on its own.
#[derive(Clone, Debug)]
pub enum ContractError {
    /// The raffle is not in the `Active` state, or a winner is already set.
    NotActive,
    /// A timed raffle cannot be finalized before its deadline unless every
    /// ticket has been sold.
    NotSoldOut,
    /// The sender lacks the capability the operation demands.
    NotAuthorized,
    /// The payment attached to (or the balance behind) a purchase does not
    /// cover the ticket price.
    MissingFunds,
    /// Sales closed below the configured sales target.
    BelowTicketSalesThreshold,
    /// The configured ticket supply is zero or below the sales target.
    InsufficientTicketSupply,
    /// A draw was asked of an empty ledger, or a refund was asked twice.
    AlreadyClaimed,
    /// The sales deadline has passed.
    SalesPeriodOver,
    /// The purchase asks for zero tickets or for more than remain.
    SoldOut,
    /// The configuration is malformed in some other way.
    ValidationError { reason: Option<String> },
}

impl ContractError {
    /// A short stable name for the error, for hosts that surface it as text.
    pub fn label(&self) -> (r: &'static str)
        ensures
            r@ == self.label_spec(),
    {
        match self {
            ContractError::NotActive => "NotActive",
            ContractError::NotSoldOut => "NotSoldOut",
            ContractError::NotAuthorized => "NotAuthorized",
            ContractError::MissingFunds => "MissingFunds",
            ContractError::BelowTicketSalesThreshold => "BelowTicketSalesThreshold",
            ContractError::InsufficientTicketSupply => "InsufficientTicketSupply",
            ContractError::AlreadyClaimed => "AlreadyClaimed",
            ContractError::SalesPeriodOver => "SalesPeriodOver",
            ContractError::SoldOut => "SoldOut",
            ContractError::ValidationError { .. } => "ValidationError",
        }
    }

    pub open spec fn label_spec(&self) -> Seq<char> {
        match self {
            ContractError::NotActive => "NotActive"@,
            ContractError::NotSoldOut => "NotSoldOut"@,
            ContractError::NotAuthorized => "NotAuthorized"@,
            ContractError::MissingFunds => "MissingFunds"@,
            ContractError::BelowTicketSalesThreshold => "BelowTicketSalesThreshold"@,
            ContractError::InsufficientTicketSupply => "InsufficientTicketSupply"@,
            ContractError::AlreadyClaimed => "AlreadyClaimed"@,
            ContractError::SalesPeriodOver => "SalesPeriodOver"@,
            ContractError::SoldOut => "SoldOut"@,
            ContractError::ValidationError { .. } => "ValidationError"@,
        }
    }
}

} // verus!
