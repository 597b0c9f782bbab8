use vstd::prelude::*;

verus! {

/// Domain separator folded into an offer identifier to obtain the custodial
/// authority that controls the offer's treasuries.
pub const TREASURER_TAG: u64 = 0x7472656173757265;

/// The custodial authority for an offer: a deterministic, program-controlled
/// identity derived from the offer's identifier alone. No external actor
/// holds it, so only the settlement engine can authorize outgoing transfers
/// from the treasuries it owns.
pub open spec fn spec_derive_authority(offer_id: u64) -> u64 {
    offer_id ^ TREASURER_TAG
}

/// Exec form of [`spec_derive_authority`]: a pure function of the offer's
/// identifier.
#[verifier::when_used_as_spec(spec_derive_authority)]
pub fn derive_authority(offer_id: u64) -> (r: u64)
    ensures
        r == spec_derive_authority(offer_id),
{
    offer_id ^ TREASURER_TAG
}

/// An asset-specific custodial balance: the holder of `authority` may move
/// funds out of it, and every unit it holds is of asset `asset`.
#[derive(Clone, Copy, Debug, PartialEq, Eq, Structural)]
pub struct TokenAccount {
    /// Identity allowed to authorize outgoing transfers.
    pub authority: u64,
    /// The asset this account holds.
    pub asset: u64,
    /// Current balance, in the smallest asset unit.
    pub balance: u64,
}

/// A market-maker's standing, funded trade terms. `bid_total` and `bid_rate`
/// are immutable after creation: no update operation exists.
#[derive(Clone, Copy, Debug, PartialEq, Eq, Structural)]
pub struct Offer {
    /// Identity of the account authorized to manage this offer.
    pub owner_identity: u64,
    /// The asset the offer-maker is willing to receive.
    pub bid_asset: u64,
    /// Total quantity the offer-maker commits, in the smallest asset unit.
    pub bid_total: u64,
    /// The exchange rate the offer-maker requires.
    pub bid_rate: u64,
    /// The token account holding the offer's bid-side escrow.
    pub treasury: u64,
}

/// A taker's request against exactly one offer. `ask_rate` and `ask_amount`
/// are immutable once the order is created.
#[derive(Clone, Copy, Debug, PartialEq, Eq, Structural)]
pub struct Order {
    /// Identity of the taker.
    pub owner_identity: u64,
    /// The offer this order targets; the link never changes.
    pub offer_reference: u64,
    /// The taker's requested rate.
    pub ask_rate: u64,
    /// The quantity the taker escrows, in the asset the taker offers.
    pub ask_amount: u64,
    /// The token account holding the order's ask-side escrow.
    pub treasury: u64,
}

/// The exact-match approval policy: an order is approved iff its amount and
/// rate are bit-for-bit identical to the offer's committed terms. There is
/// no tolerance band and no partial fill; either field alone rejects.
pub open spec fn spec_approves(
    bid_total: u64,
    bid_rate: u64,
    ask_amount: u64,
    ask_rate: u64,
) -> bool {
    bid_total == ask_amount && bid_rate == ask_rate
}

/// Exec form of the exact-match policy, usable at a hosting boundary before
/// any entry is allocated.
#[verifier::when_used_as_spec(spec_approves)]
pub fn approve_terms(bid_total: u64, bid_rate: u64, ask_amount: u64, ask_rate: u64) -> (r: bool)
    ensures
        r == spec_approves(bid_total, bid_rate, ask_amount, ask_rate),
{
    bid_total == ask_amount && bid_rate == ask_rate
}

/// The claim owed to the taker when an order is settled: twice the ask
/// amount, or nothing when the doubling would overflow.
pub fn claim_amount(ask_amount: u64) -> (r: Option<u64>)
    ensures
        match r {
            Some(c) => c == 2 * ask_amount,
            None => 2 * ask_amount > u64::MAX,
        },
{
    ask_amount.checked_mul(2)
}

impl Order {
    /// Auto-approval of this order against an offer's committed terms,
    /// evaluated exactly once, at order creation, before any deposit.
    pub fn auto_approve(&self, offer: &Offer) -> (r: bool)
        ensures
            r == spec_approves(offer.bid_total, offer.bid_rate, self.ask_amount, self.ask_rate),
    {
        if offer.bid_total != self.ask_amount {
            return false;
        }
        if offer.bid_rate != self.ask_rate {
            return false;
        }
        true
    }
}

} // verus!
