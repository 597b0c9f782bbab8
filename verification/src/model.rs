use vstd::prelude::*;

use crate::errors::ErrorCode;
use crate::schema::{spec_approves, spec_derive_authority, Offer, Order, TokenAccount};

verus! {

/// The mathematical state of the market: the ledger of standing offers,
/// open orders, and token accounts (external accounts and treasuries alike),
/// each keyed by its identifier.
#[verifier::ext_equal]
pub ghost struct MarketModel {
    pub offers: Map<u64, Offer>,
    pub orders: Map<u64, Order>,
    pub accounts: Map<u64, TokenAccount>,
}

impl MarketModel {
    /// The state with no entries and no accounts.
    pub open spec fn empty() -> MarketModel {
        MarketModel { offers: Map::empty(), orders: Map::empty(), accounts: Map::empty() }
    }

    /// The same state with one account's balance replaced, its authority and
    /// asset untouched.
    pub open spec fn set_balance(self, id: u64, balance: u64) -> MarketModel {
        MarketModel {
            accounts: self.accounts.insert(
                id,
                TokenAccount {
                    authority: self.accounts[id].authority,
                    asset: self.accounts[id].asset,
                    balance,
                },
            ),
            ..self
        }
    }

    /// An offer's treasury is a real account of the offer's bid asset,
    /// controlled by the authority derived from the offer's identifier.
    pub open spec fn offer_wf(self, id: u64) -> bool {
        let offer = self.offers[id];
        &&& self.accounts.contains_key(offer.treasury)
        &&& self.accounts[offer.treasury].asset == offer.bid_asset
        &&& self.accounts[offer.treasury].authority == spec_derive_authority(id)
    }

    /// An order's treasury is a real account controlled by the authority
    /// derived from the referenced offer's identifier.
    pub open spec fn order_wf(self, id: u64) -> bool {
        let order = self.orders[id];
        &&& self.accounts.contains_key(order.treasury)
        &&& self.accounts[order.treasury].authority == spec_derive_authority(
            order.offer_reference,
        )
    }

    /// Well-formedness of the whole market: every entry's treasury exists,
    /// holds the right asset, and answers to the protocol's derived
    /// authority, never to an external signer.
    pub open spec fn wf(self) -> bool {
        &&& forall|id: u64| #[trigger] self.offers.contains_key(id) ==> self.offer_wf(id)
        &&& forall|id: u64| #[trigger] self.orders.contains_key(id) ==> self.order_wf(id)
    }
}

/// Registering a fresh external token account, as the surrounding ledger
/// would before any offer or order touches it.
pub open spec fn spec_register_account(
    m: MarketModel,
    id: u64,
    authority: u64,
    asset: u64,
    balance: u64,
) -> Result<MarketModel, ErrorCode> {
    if m.accounts.contains_key(id) {
        Err(ErrorCode::EntryExists)
    } else {
        Ok(
            MarketModel {
                accounts: m.accounts.insert(id, TokenAccount { authority, asset, balance }),
                ..m
            },
        )
    }
}

/// The asset-transfer primitive: move `amount` units of `asset` from account
/// `from` to account `to`, authorized by `authority_proof`. Both endpoints
/// must exist and hold `asset`; the proof must match the source's authority;
/// the source must cover the amount; the destination must have room. A
/// transfer from an account to itself moves nothing. On any failure the
/// state is unchanged.
pub open spec fn spec_transfer(
    m: MarketModel,
    asset: u64,
    from: u64,
    to: u64,
    amount: u64,
    authority_proof: u64,
) -> Result<MarketModel, ErrorCode> {
    if !m.accounts.contains_key(from) {
        Err(ErrorCode::UnknownAccount)
    } else if m.accounts[from].asset != asset {
        Err(ErrorCode::AccountMint)
    } else if m.accounts[from].authority != authority_proof {
        Err(ErrorCode::AuthorizationDenied)
    } else if m.accounts[from].balance < amount {
        Err(ErrorCode::InsufficientFunds)
    } else if !m.accounts.contains_key(to) {
        Err(ErrorCode::UnknownAccount)
    } else if m.accounts[to].asset != asset {
        Err(ErrorCode::AccountMint)
    } else if from == to {
        Ok(m)
    } else if m.accounts[to].balance + amount > u64::MAX {
        Err(ErrorCode::Overflow)
    } else {
        Ok(
            m.set_balance(from, (m.accounts[from].balance - amount) as u64).set_balance(
                to,
                (m.accounts[to].balance + amount) as u64,
            ),
        )
    }
}

/// Offer creation: allocate the entry, record the maker's terms, and fund
/// the bid-side treasury with `bid_total` units of `bid_asset` drawn from
/// the maker's own account — all in one unit of work. If any step cannot
/// succeed, nothing is created and nothing moves.
pub open spec fn spec_create_offer(
    m: MarketModel,
    offer_id: u64,
    owner: u64,
    bid_asset: u64,
    bid_total: u64,
    bid_rate: u64,
    treasury: u64,
    source: u64,
) -> Result<MarketModel, ErrorCode> {
    if m.offers.contains_key(offer_id) {
        Err(ErrorCode::EntryExists)
    } else if m.accounts.contains_key(treasury) {
        Err(ErrorCode::EntryExists)
    } else if !m.accounts.contains_key(source) {
        Err(ErrorCode::UnknownAccount)
    } else if m.accounts[source].asset != bid_asset {
        Err(ErrorCode::AccountMint)
    } else if m.accounts[source].authority != owner {
        Err(ErrorCode::AuthorizationDenied)
    } else if m.accounts[source].balance < bid_total {
        Err(ErrorCode::InsufficientFunds)
    } else {
        let funded = MarketModel {
            accounts: m.accounts.insert(
                treasury,
                TokenAccount {
                    authority: spec_derive_authority(offer_id),
                    asset: bid_asset,
                    balance: 0,
                },
            ),
            ..m
        };
        match spec_transfer(funded, bid_asset, source, treasury, bid_total, owner) {
            Ok(m2) => Ok(
                MarketModel {
                    offers: m2.offers.insert(
                        offer_id,
                        Offer { owner_identity: owner, bid_asset, bid_total, bid_rate, treasury },
                    ),
                    ..m2
                },
            ),
            Err(e) => Err(e),
        }
    }
}

/// Order creation: the auto-approval check runs against the referenced
/// offer's committed terms before anything is funded; only an approved
/// order's ask-side deposit is attempted, and the entry is persisted only
/// when that deposit succeeds.
pub open spec fn spec_create_order(
    m: MarketModel,
    order_id: u64,
    owner: u64,
    offer_reference: u64,
    ask_asset: u64,
    ask_rate: u64,
    ask_amount: u64,
    treasury: u64,
    source: u64,
) -> Result<MarketModel, ErrorCode> {
    if m.orders.contains_key(order_id) {
        Err(ErrorCode::EntryExists)
    } else if !m.offers.contains_key(offer_reference) {
        Err(ErrorCode::UnknownOffer)
    } else if !spec_approves(
        m.offers[offer_reference].bid_total,
        m.offers[offer_reference].bid_rate,
        ask_amount,
        ask_rate,
    ) {
        Err(ErrorCode::NotEnoughBalance)
    } else if m.accounts.contains_key(treasury) {
        Err(ErrorCode::EntryExists)
    } else if !m.accounts.contains_key(source) {
        Err(ErrorCode::UnknownAccount)
    } else if m.accounts[source].asset != ask_asset {
        Err(ErrorCode::AccountMint)
    } else if m.accounts[source].authority != owner {
        Err(ErrorCode::AuthorizationDenied)
    } else if m.accounts[source].balance < ask_amount {
        Err(ErrorCode::InsufficientFunds)
    } else {
        let funded = MarketModel {
            accounts: m.accounts.insert(
                treasury,
                TokenAccount {
                    authority: spec_derive_authority(offer_reference),
                    asset: ask_asset,
                    balance: 0,
                },
            ),
            ..m
        };
        match spec_transfer(funded, ask_asset, source, treasury, ask_amount, owner) {
            Ok(m2) => Ok(
                MarketModel {
                    orders: m2.orders.insert(
                        order_id,
                        Order {
                            owner_identity: owner,
                            offer_reference,
                            ask_rate,
                            ask_amount,
                            treasury,
                        },
                    ),
                    ..m2
                },
            ),
            Err(e) => Err(e),
        }
    }
}

/// The claim transfer: pay the order's counterparty twice the ask amount in
/// bid asset out of the offer's treasury, authorized by the custodial
/// authority derived from the offer's identifier. Doubling past the numeric
/// maximum fails with the overflow error rather than wrapping.
pub open spec fn spec_pay_buyer(
    m: MarketModel,
    offer_id: u64,
    order_id: u64,
    recipient: u64,
) -> Result<MarketModel, ErrorCode> {
    if !m.offers.contains_key(offer_id) {
        Err(ErrorCode::UnknownOffer)
    } else if !m.orders.contains_key(order_id) {
        Err(ErrorCode::UnknownOrder)
    } else if 2 * m.orders[order_id].ask_amount > u64::MAX {
        Err(ErrorCode::Overflow)
    } else {
        spec_transfer(
            m,
            m.offers[offer_id].bid_asset,
            m.offers[offer_id].treasury,
            recipient,
            (2 * m.orders[order_id].ask_amount) as u64,
            spec_derive_authority(offer_id),
        )
    }
}

/// The fulfillment transfer: pay exactly the ask amount, in the asset the
/// order's treasury holds, out of that treasury, authorized by the custodial
/// authority derived from the referenced offer's identifier.
pub open spec fn spec_pay_seller(
    m: MarketModel,
    order_id: u64,
    recipient: u64,
) -> Result<MarketModel, ErrorCode> {
    if !m.orders.contains_key(order_id) {
        Err(ErrorCode::UnknownOrder)
    } else if !m.accounts.contains_key(m.orders[order_id].treasury) {
        Err(ErrorCode::UnknownAccount)
    } else {
        spec_transfer(
            m,
            m.accounts[m.orders[order_id].treasury].asset,
            m.orders[order_id].treasury,
            recipient,
            m.orders[order_id].ask_amount,
            spec_derive_authority(m.orders[order_id].offer_reference),
        )
    }
}

/// Settlement, initiated by the taker: the caller must be the order's owner
/// and the presented offer must be the one the order recorded; only then is
/// the claim transfer attempted.
pub open spec fn spec_settle(
    m: MarketModel,
    order_id: u64,
    offer_id: u64,
    caller: u64,
    recipient: u64,
) -> Result<MarketModel, ErrorCode> {
    if !m.orders.contains_key(order_id) {
        Err(ErrorCode::UnknownOrder)
    } else if m.orders[order_id].owner_identity != caller {
        Err(ErrorCode::InvalidPermission)
    } else if m.orders[order_id].offer_reference != offer_id {
        Err(ErrorCode::LinkageMismatch)
    } else {
        spec_pay_buyer(m, offer_id, order_id, recipient)
    }
}

/// Well-formedness survives any change that keeps every existing account in
/// place with its authority and asset intact and leaves the entries alone:
/// treasuries are looked up by identifier and checked only for existence,
/// asset and authority, never balance.
pub proof fn lemma_accounts_extended_wf(m: MarketModel, m2: MarketModel)
    requires
        m.wf(),
        m2.offers == m.offers,
        m2.orders == m.orders,
        forall|a: u64| #[trigger]
            m.accounts.contains_key(a) ==> m2.accounts.contains_key(a) && m2.accounts[a].authority
                == m.accounts[a].authority && m2.accounts[a].asset == m.accounts[a].asset,
    ensures
        m2.wf(),
{
    assert forall|id: u64| #[trigger] m2.offers.contains_key(id) implies m2.offer_wf(id) by {
        assert(m.offers.contains_key(id));
        assert(m.offer_wf(id));
        assert(m.accounts.contains_key(m.offers[id].treasury));
    }
    assert forall|id: u64| #[trigger] m2.orders.contains_key(id) implies m2.order_wf(id) by {
        assert(m.orders.contains_key(id));
        assert(m.order_wf(id));
        assert(m.accounts.contains_key(m.orders[id].treasury));
    }
}

/// A successful transfer moves balances only: the entry maps are untouched,
/// no account appears or disappears, and every account keeps its authority
/// and its asset.
pub proof fn lemma_transfer_accounts(
    m: MarketModel,
    asset: u64,
    from: u64,
    to: u64,
    amount: u64,
    authority_proof: u64,
    m2: MarketModel,
)
    requires
        spec_transfer(m, asset, from, to, amount, authority_proof) == Ok::<
            MarketModel,
            ErrorCode,
        >(m2),
    ensures
        m2.offers == m.offers,
        m2.orders == m.orders,
        forall|a: u64| #[trigger]
            m2.accounts.contains_key(a) == m.accounts.contains_key(a),
        forall|a: u64| #[trigger]
            m.accounts.contains_key(a) ==> m2.accounts[a].authority == m.accounts[a].authority
                && m2.accounts[a].asset == m.accounts[a].asset,
{
    if from == to {
        assert(m2 == m);
    } else {
        assert forall|a: u64| #[trigger]
            m2.accounts.contains_key(a) == m.accounts.contains_key(a) by {
            if a != from && a != to {
                assert(m2.accounts.contains_key(a) == m.accounts.contains_key(a));
            }
        }
    }
}

/// A successful transfer preserves market well-formedness.
pub proof fn lemma_transfer_preserves_wf(
    m: MarketModel,
    asset: u64,
    from: u64,
    to: u64,
    amount: u64,
    authority_proof: u64,
    m2: MarketModel,
)
    requires
        m.wf(),
        spec_transfer(m, asset, from, to, amount, authority_proof) == Ok::<
            MarketModel,
            ErrorCode,
        >(m2),
    ensures
        m2.wf(),
{
    lemma_transfer_accounts(m, asset, from, to, amount, authority_proof, m2);
    lemma_accounts_extended_wf(m, m2);
}

} // verus!
