use vstd::prelude::*;

use crate::errors::ErrorCode;
use crate::model::{spec_create_order, spec_settle, MarketModel};
use crate::schema::spec_approves;

verus! {

/// Exact-match approval: order creation succeeds only when the order's
/// amount and rate are bit-for-bit identical to the offer's committed
/// terms; any single differing field rejects the order with the terms-unmet
/// error before its deposit is attempted; and when the terms match and the
/// storage and funding conditions hold, creation succeeds.
pub proof fn lemma_exact_match_approval(
    m: MarketModel,
    order_id: u64,
    owner: u64,
    offer_reference: u64,
    ask_asset: u64,
    ask_rate: u64,
    ask_amount: u64,
    treasury: u64,
    source: u64,
)
    ensures
        spec_create_order(
            m,
            order_id,
            owner,
            offer_reference,
            ask_asset,
            ask_rate,
            ask_amount,
            treasury,
            source,
        ) is Ok ==> m.offers.contains_key(offer_reference) && spec_approves(
            m.offers[offer_reference].bid_total,
            m.offers[offer_reference].bid_rate,
            ask_amount,
            ask_rate,
        ),
        !m.orders.contains_key(order_id) && m.offers.contains_key(offer_reference)
            && !spec_approves(
            m.offers[offer_reference].bid_total,
            m.offers[offer_reference].bid_rate,
            ask_amount,
            ask_rate,
        ) ==> spec_create_order(
            m,
            order_id,
            owner,
            offer_reference,
            ask_asset,
            ask_rate,
            ask_amount,
            treasury,
            source,
        ) == Err::<MarketModel, ErrorCode>(ErrorCode::NotEnoughBalance),
        !m.orders.contains_key(order_id) && m.offers.contains_key(offer_reference)
            && spec_approves(
            m.offers[offer_reference].bid_total,
            m.offers[offer_reference].bid_rate,
            ask_amount,
            ask_rate,
        ) && !m.accounts.contains_key(treasury) && m.accounts.contains_key(source)
            && m.accounts[source].asset == ask_asset && m.accounts[source].authority == owner
            && m.accounts[source].balance >= ask_amount ==> spec_create_order(
            m,
            order_id,
            owner,
            offer_reference,
            ask_asset,
            ask_rate,
            ask_amount,
            treasury,
            source,
        ) is Ok,
{
}

/// Settlement payout multiplier: a successful settlement of an order asking
/// `A` moves exactly `2 * A` units of the bid asset from the offer's
/// treasury to the taker's receiving account — the treasury loses exactly
/// `2 * A`, the recipient gains exactly `2 * A`, every other account is
/// untouched, and no entry is created, changed or destroyed. (When the
/// receiving account is the treasury itself a transfer moves nothing, so
/// that degenerate recipient is excluded here.)
pub proof fn lemma_settle_payout(
    m: MarketModel,
    order_id: u64,
    offer_id: u64,
    caller: u64,
    recipient: u64,
    m2: MarketModel,
)
    requires
        spec_settle(m, order_id, offer_id, caller, recipient) == Ok::<MarketModel, ErrorCode>(m2),
        m.offers.contains_key(offer_id) ==> recipient != m.offers[offer_id].treasury,
    ensures
        m.orders.contains_key(order_id),
        m.offers.contains_key(offer_id),
        m.orders[order_id].owner_identity == caller,
        m.orders[order_id].offer_reference == offer_id,
        2 * m.orders[order_id].ask_amount <= u64::MAX,
        m.accounts.contains_key(recipient),
        m.accounts.contains_key(m.offers[offer_id].treasury),
        m2.offers == m.offers,
        m2.orders == m.orders,
        m2.accounts.contains_key(recipient),
        m2.accounts.contains_key(m.offers[offer_id].treasury),
        m2.accounts[recipient].balance == m.accounts[recipient].balance
            + 2 * m.orders[order_id].ask_amount,
        m2.accounts[m.offers[offer_id].treasury].balance
            == m.accounts[m.offers[offer_id].treasury].balance
            - 2 * m.orders[order_id].ask_amount,
        forall|a: u64|
            a != recipient && a != m.offers[offer_id].treasury ==> #[trigger] m2.accounts.contains_key(
                a,
            ) == m.accounts.contains_key(a) && (m.accounts.contains_key(a) ==> m2.accounts[a]
                == m.accounts[a]),
{
    let treasury = m.offers[offer_id].treasury;
    let claim = 2 * m.orders[order_id].ask_amount;
    assert(m2 == m.set_balance(treasury, (m.accounts[treasury].balance - claim) as u64).set_balance(
        recipient,
        (m.accounts[recipient].balance + claim) as u64,
    ));
}

/// Overflow guard: an ask amount whose doubling exceeds the numeric maximum
/// makes settlement fail with the overflow error — it never wraps to a
/// small value, and (by the settlement contract) no transfer executes.
pub proof fn lemma_settle_overflow(
    m: MarketModel,
    order_id: u64,
    offer_id: u64,
    caller: u64,
    recipient: u64,
)
    requires
        m.orders.contains_key(order_id),
        m.orders[order_id].owner_identity == caller,
        m.orders[order_id].offer_reference == offer_id,
        m.offers.contains_key(offer_id),
        2 * m.orders[order_id].ask_amount > u64::MAX,
    ensures
        spec_settle(m, order_id, offer_id, caller, recipient) == Err::<
            MarketModel,
            ErrorCode,
        >(ErrorCode::Overflow),
{
}

/// Linkage rejection: settling an order against any offer other than the
/// one its `offer_reference` records is rejected outright — before the
/// claim is even computed, so zero transfers execute.
pub proof fn lemma_settle_linkage(
    m: MarketModel,
    order_id: u64,
    offer_id: u64,
    caller: u64,
    recipient: u64,
)
    requires
        m.orders.contains_key(order_id),
        m.orders[order_id].owner_identity == caller,
        m.orders[order_id].offer_reference != offer_id,
    ensures
        spec_settle(m, order_id, offer_id, caller, recipient) == Err::<
            MarketModel,
            ErrorCode,
        >(ErrorCode::LinkageMismatch),
{
}

} // verus!
