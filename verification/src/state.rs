use vstd::prelude::*;

verus! {

/// The escrow accepts investor funding.
pub const STATUS_OPEN: u32 = 0;

/// The funding target was met; the escrow awaits settlement by the buyer.
pub const STATUS_FUNDED: u32 = 1;

/// The buyer has paid principal plus yield in full.
pub const STATUS_SETTLED: u32 = 2;

/// The layout version of the escrow record written by `init`.
pub const SCHEMA_VERSION: u32 = 1;

/// Basis points in one whole (100%).
pub const BPS_DENOMINATOR: i128 = 10000;

/// The stored record of one invoice escrow.
///
/// Addresses and the invoice identifier are held as their textual forms
/// (a Stellar strkey for an address, the symbol's characters for an id).
#[derive(Debug, PartialEq, Eq)]
pub struct InvoiceEscrow {
    /// Unique invoice identifier (e.g. INV-1023)
    pub invoice_id: String,
    /// SME wallet that receives liquidity
    pub sme_address: String,
    /// Administrator authorized to update maturity
    pub admin: String,
    /// Total amount in smallest unit (e.g. stroops for XLM)
    pub amount: i128,
    /// Funding target must be met to release to SME
    pub funding_target: i128,
    /// Total funded so far by investors
    pub funded_amount: i128,
    /// Total settled (paid by buyer) so far
    pub settled_amount: i128,
    /// Yield basis points (e.g. 800 = 8%)
    pub yield_bps: i64,
    /// Maturity timestamp (ledger time)
    pub maturity: u64,
    /// Escrow status: 0 = open, 1 = funded, 2 = settled
    pub status: u32,
    /// Layout version of this record
    pub version: u32,
}

impl Clone for InvoiceEscrow {
    fn clone(&self) -> (res: Self)
        ensures
            res == *self,
    {
        InvoiceEscrow {
            invoice_id: self.invoice_id.clone(),
            sme_address: self.sme_address.clone(),
            admin: self.admin.clone(),
            amount: self.amount,
            funding_target: self.funding_target,
            funded_amount: self.funded_amount,
            settled_amount: self.settled_amount,
            yield_bps: self.yield_bps,
            maturity: self.maturity,
            status: self.status,
            version: self.version,
        }
    }
}

/// Emitted when the admin moves the maturity of an open escrow.
#[derive(Debug, PartialEq, Eq)]
pub struct MaturityUpdatedEvent {
    pub invoice_id: String,
    pub old_maturity: u64,
    pub new_maturity: u64,
}

/// Emitted on every accepted settlement payment, partial or final.
#[derive(Debug, PartialEq, Eq)]
pub struct PartialSettlementEvent {
    pub invoice_id: String,
    pub amount: i128,
    pub settled_amount: i128,
    pub total_due: i128,
}

/// Why an escrow operation was refused. A refused operation leaves the
/// stored escrow as it was.
#[derive(Debug, Clone, Copy, PartialEq, Eq, Structural)]
pub enum EscrowError {
    /// `init` was called on an escrow that already holds a record.
    AlreadyInitialized,
    /// No escrow record has been stored yet.
    NotInitialized,
    /// Funding is only accepted while the escrow is open.
    NotOpenForFunding,
    /// Settlement is only accepted while the escrow is funded and not yet
    /// settled.
    NotFunded,
    /// Settlement is only accepted from the maturity timestamp on.
    NotMatured,
    /// The payment would take the settled amount past the total due.
    SettlementExceedsTotalDue,
    /// The call does not carry the authorization of the party it needs.
    Unauthorized,
    /// The maturity can only be moved while the escrow is open.
    MaturityUpdateNotOpen,
    /// An intermediate amount does not fit in `i128`.
    ArithmeticOverflow,
}

} // verus!
