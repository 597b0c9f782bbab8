use exchange_market::errors::ErrorCode;
use exchange_market::market::Market;
use exchange_market::schema::{approve_terms, claim_amount, derive_authority, TokenAccount};

const BID_ASSET: u64 = 7;
const ASK_ASSET: u64 = 8;
const MAKER: u64 = 100;
const TAKER: u64 = 200;
const OFFER_ID: u64 = 1;
const ORDER_ID: u64 = 2;
const MAKER_BID_ACCOUNT: u64 = 10;
const BID_TREASURY: u64 = 11;
const TAKER_ASK_ACCOUNT: u64 = 20;
const ASK_TREASURY: u64 = 21;
const TAKER_BID_ACCOUNT: u64 = 30;
const FUNDER: u64 = 40;
const FUNDER_AUTHORITY: u64 = 999;

/// A market holding the standing offer of the concrete scenario:
/// `bid_total = 1000`, `bid_rate = 5`, funded from the maker's account.
fn market_with_offer() -> Market {
    let mut m = Market::new();
    m.register_account(MAKER_BID_ACCOUNT, MAKER, BID_ASSET, 1000).unwrap();
    m.register_account(TAKER_ASK_ACCOUNT, TAKER, ASK_ASSET, 1500).unwrap();
    m.register_account(TAKER_BID_ACCOUNT, TAKER, BID_ASSET, 0).unwrap();
    m.create_offer(OFFER_ID, MAKER, BID_ASSET, 1000, 5, BID_TREASURY, MAKER_BID_ACCOUNT)
        .unwrap();
    m
}

/// The same market after the matching order (`ask_amount = 1000`,
/// `ask_rate = 5`) has been created and escrowed.
fn market_with_order() -> Market {
    let mut m = market_with_offer();
    m.create_order(ORDER_ID, TAKER, OFFER_ID, ASK_ASSET, 5, 1000, ASK_TREASURY, TAKER_ASK_ACCOUNT)
        .unwrap();
    m
}

/// Puts another 1000 units of the bid asset into the bid treasury, so the
/// doubled claim of the concrete scenario can actually be paid.
fn top_up_bid_treasury(m: &mut Market) {
    m.register_account(FUNDER, FUNDER_AUTHORITY, BID_ASSET, 1000).unwrap();
    m.transfer(BID_ASSET, FUNDER, BID_TREASURY, 1000, FUNDER_AUTHORITY).unwrap();
}

#[test]
fn approve_terms_is_exact_match() {
    assert!(approve_terms(1000, 5, 1000, 5));
    assert!(!approve_terms(1000, 5, 999, 5));
    assert!(!approve_terms(1000, 5, 1000, 6));
    assert!(!approve_terms(1000, 4, 999, 5));
    assert!(approve_terms(0, 0, 0, 0));
}

#[test]
fn claim_amount_doubles_exactly() {
    assert_eq!(claim_amount(3), Some(6));
    assert_eq!(claim_amount(1000), Some(2000));
    assert_eq!(claim_amount(0), Some(0));
    assert_eq!(claim_amount(u64::MAX / 2), Some(u64::MAX - 1));
}

#[test]
fn claim_amount_refuses_overflow() {
    assert_eq!(claim_amount(u64::MAX / 2 + 1), None);
    assert_eq!(claim_amount(u64::MAX), None);
}

#[test]
fn offer_creation_funds_treasury() {
    let m = market_with_offer();
    let offer = m.offer(OFFER_ID).unwrap();
    assert_eq!(offer.owner_identity, MAKER);
    assert_eq!(offer.bid_asset, BID_ASSET);
    assert_eq!(offer.bid_total, 1000);
    assert_eq!(offer.bid_rate, 5);
    assert_eq!(offer.treasury, BID_TREASURY);
    assert_eq!(
        m.account(BID_TREASURY),
        Some(TokenAccount {
            authority: derive_authority(OFFER_ID),
            asset: BID_ASSET,
            balance: 1000,
        })
    );
    assert_eq!(m.account(MAKER_BID_ACCOUNT).unwrap().balance, 0);
}

#[test]
fn offer_creation_is_atomic_on_insufficient_balance() {
    let mut m = Market::new();
    m.register_account(MAKER_BID_ACCOUNT, MAKER, BID_ASSET, 999).unwrap();
    let r = m.create_offer(OFFER_ID, MAKER, BID_ASSET, 1000, 5, BID_TREASURY, MAKER_BID_ACCOUNT);
    assert_eq!(r, Err(ErrorCode::InsufficientFunds));
    assert_eq!(m.offer(OFFER_ID), None);
    assert_eq!(m.account(BID_TREASURY), None);
    assert_eq!(m.account(MAKER_BID_ACCOUNT).unwrap().balance, 999);
}

#[test]
fn offer_creation_rejects_wrong_asset() {
    let mut m = Market::new();
    m.register_account(MAKER_BID_ACCOUNT, MAKER, ASK_ASSET, 1000).unwrap();
    let r = m.create_offer(OFFER_ID, MAKER, BID_ASSET, 1000, 5, BID_TREASURY, MAKER_BID_ACCOUNT);
    assert_eq!(r, Err(ErrorCode::AccountMint));
    assert_eq!(m.offer(OFFER_ID), None);
}

#[test]
fn offer_creation_rejects_foreign_source() {
    let mut m = Market::new();
    m.register_account(MAKER_BID_ACCOUNT, TAKER, BID_ASSET, 1000).unwrap();
    let r = m.create_offer(OFFER_ID, MAKER, BID_ASSET, 1000, 5, BID_TREASURY, MAKER_BID_ACCOUNT);
    assert_eq!(r, Err(ErrorCode::AuthorizationDenied));
    assert_eq!(m.offer(OFFER_ID), None);
}

#[test]
fn offer_creation_rejects_missing_source() {
    let mut m = Market::new();
    let r = m.create_offer(OFFER_ID, MAKER, BID_ASSET, 1000, 5, BID_TREASURY, MAKER_BID_ACCOUNT);
    assert_eq!(r, Err(ErrorCode::UnknownAccount));
}

#[test]
fn offer_creation_rejects_duplicate_id() {
    let mut m = market_with_offer();
    m.register_account(FUNDER, MAKER, BID_ASSET, 1000).unwrap();
    let r = m.create_offer(OFFER_ID, MAKER, BID_ASSET, 1000, 5, ASK_TREASURY, FUNDER);
    assert_eq!(r, Err(ErrorCode::EntryExists));
}

#[test]
fn register_account_rejects_duplicate_id() {
    let mut m = Market::new();
    m.register_account(MAKER_BID_ACCOUNT, MAKER, BID_ASSET, 1).unwrap();
    let r = m.register_account(MAKER_BID_ACCOUNT, TAKER, ASK_ASSET, 2);
    assert_eq!(r, Err(ErrorCode::EntryExists));
    assert_eq!(m.account(MAKER_BID_ACCOUNT).unwrap().balance, 1);
}

#[test]
fn matching_order_is_approved_and_escrowed() {
    let m = market_with_order();
    let order = m.order(ORDER_ID).unwrap();
    assert_eq!(order.owner_identity, TAKER);
    assert_eq!(order.offer_reference, OFFER_ID);
    assert_eq!(order.ask_rate, 5);
    assert_eq!(order.ask_amount, 1000);
    assert_eq!(order.treasury, ASK_TREASURY);
    assert_eq!(
        m.account(ASK_TREASURY),
        Some(TokenAccount {
            authority: derive_authority(OFFER_ID),
            asset: ASK_ASSET,
            balance: 1000,
        })
    );
    assert_eq!(m.account(TAKER_ASK_ACCOUNT).unwrap().balance, 500);
}

#[test]
fn order_with_smaller_amount_is_rejected_without_deposit() {
    let mut m = market_with_offer();
    let r = m.create_order(ORDER_ID, TAKER, OFFER_ID, ASK_ASSET, 5, 999, ASK_TREASURY, TAKER_ASK_ACCOUNT);
    assert_eq!(r, Err(ErrorCode::NotEnoughBalance));
    assert_eq!(m.order(ORDER_ID), None);
    assert_eq!(m.account(ASK_TREASURY), None);
    assert_eq!(m.account(TAKER_ASK_ACCOUNT).unwrap().balance, 1500);
}

#[test]
fn order_with_wrong_rate_is_rejected_without_deposit() {
    let mut m = market_with_offer();
    let r = m.create_order(ORDER_ID, TAKER, OFFER_ID, ASK_ASSET, 6, 1000, ASK_TREASURY, TAKER_ASK_ACCOUNT);
    assert_eq!(r, Err(ErrorCode::NotEnoughBalance));
    assert_eq!(m.order(ORDER_ID), None);
    assert_eq!(m.account(ASK_TREASURY), None);
    assert_eq!(m.account(TAKER_ASK_ACCOUNT).unwrap().balance, 1500);
}

#[test]
fn order_against_missing_offer_is_rejected() {
    let mut m = market_with_offer();
    let r = m.create_order(ORDER_ID, TAKER, 77, ASK_ASSET, 5, 1000, ASK_TREASURY, TAKER_ASK_ACCOUNT);
    assert_eq!(r, Err(ErrorCode::UnknownOffer));
    assert_eq!(m.order(ORDER_ID), None);
}

#[test]
fn order_creation_is_atomic_on_insufficient_balance() {
    let mut m = Market::new();
    m.register_account(MAKER_BID_ACCOUNT, MAKER, BID_ASSET, 1000).unwrap();
    m.register_account(TAKER_ASK_ACCOUNT, TAKER, ASK_ASSET, 999).unwrap();
    m.create_offer(OFFER_ID, MAKER, BID_ASSET, 1000, 5, BID_TREASURY, MAKER_BID_ACCOUNT)
        .unwrap();
    let r = m.create_order(ORDER_ID, TAKER, OFFER_ID, ASK_ASSET, 5, 1000, ASK_TREASURY, TAKER_ASK_ACCOUNT);
    assert_eq!(r, Err(ErrorCode::InsufficientFunds));
    assert_eq!(m.order(ORDER_ID), None);
    assert_eq!(m.account(ASK_TREASURY), None);
    assert_eq!(m.account(TAKER_ASK_ACCOUNT).unwrap().balance, 999);
}

#[test]
fn settlement_pays_double_the_ask_amount() {
    let mut m = market_with_order();
    top_up_bid_treasury(&mut m);
    assert_eq!(m.account(BID_TREASURY).unwrap().balance, 2000);
    let r = m.settle(ORDER_ID, OFFER_ID, TAKER, TAKER_BID_ACCOUNT);
    assert_eq!(r, Ok(()));
    assert_eq!(m.account(TAKER_BID_ACCOUNT).unwrap().balance, 2000);
    assert_eq!(m.account(BID_TREASURY).unwrap().balance, 0);
    // entries and the other balances are untouched
    assert_eq!(m.account(ASK_TREASURY).unwrap().balance, 1000);
    assert_eq!(m.order(ORDER_ID).unwrap().ask_amount, 1000);
    assert_eq!(m.offer(OFFER_ID).unwrap().bid_total, 1000);
}

#[test]
fn settlement_repeats_while_the_treasury_is_funded() {
    // Nothing marks an order settled: a second settle with the same inputs
    // re-executes the claim transfer as long as the treasury can pay.
    let mut m = market_with_order();
    m.register_account(FUNDER, FUNDER_AUTHORITY, BID_ASSET, 3000).unwrap();
    m.transfer(BID_ASSET, FUNDER, BID_TREASURY, 3000, FUNDER_AUTHORITY).unwrap();
    assert_eq!(m.settle(ORDER_ID, OFFER_ID, TAKER, TAKER_BID_ACCOUNT), Ok(()));
    assert_eq!(m.settle(ORDER_ID, OFFER_ID, TAKER, TAKER_BID_ACCOUNT), Ok(()));
    assert_eq!(m.account(TAKER_BID_ACCOUNT).unwrap().balance, 4000);
    assert_eq!(m.account(BID_TREASURY).unwrap().balance, 0);
}

#[test]
fn settlement_fails_atomically_on_underfunded_treasury() {
    let mut m = market_with_order();
    // the treasury holds only the creation deposit of 1000, short of 2000
    let r = m.settle(ORDER_ID, OFFER_ID, TAKER, TAKER_BID_ACCOUNT);
    assert_eq!(r, Err(ErrorCode::InsufficientFunds));
    assert_eq!(m.account(BID_TREASURY).unwrap().balance, 1000);
    assert_eq!(m.account(TAKER_BID_ACCOUNT).unwrap().balance, 0);
}

#[test]
fn settlement_overflow_fails_without_transfer() {
    let mut m = Market::new();
    m.register_account(MAKER_BID_ACCOUNT, MAKER, BID_ASSET, u64::MAX).unwrap();
    m.register_account(TAKER_ASK_ACCOUNT, TAKER, ASK_ASSET, u64::MAX).unwrap();
    m.register_account(TAKER_BID_ACCOUNT, TAKER, BID_ASSET, 0).unwrap();
    m.create_offer(OFFER_ID, MAKER, BID_ASSET, u64::MAX, 5, BID_TREASURY, MAKER_BID_ACCOUNT)
        .unwrap();
    m.create_order(
        ORDER_ID,
        TAKER,
        OFFER_ID,
        ASK_ASSET,
        5,
        u64::MAX,
        ASK_TREASURY,
        TAKER_ASK_ACCOUNT,
    )
    .unwrap();
    let r = m.settle(ORDER_ID, OFFER_ID, TAKER, TAKER_BID_ACCOUNT);
    assert_eq!(r, Err(ErrorCode::Overflow));
    assert_eq!(m.account(BID_TREASURY).unwrap().balance, u64::MAX);
    assert_eq!(m.account(TAKER_BID_ACCOUNT).unwrap().balance, 0);
}

#[test]
fn settlement_against_wrong_offer_is_rejected() {
    let mut m = market_with_order();
    top_up_bid_treasury(&mut m);
    m.register_account(50, MAKER, BID_ASSET, 1000).unwrap();
    m.create_offer(60, MAKER, BID_ASSET, 1000, 5, 61, 50).unwrap();
    let r = m.settle(ORDER_ID, 60, TAKER, TAKER_BID_ACCOUNT);
    assert_eq!(r, Err(ErrorCode::LinkageMismatch));
    assert_eq!(m.account(BID_TREASURY).unwrap().balance, 2000);
    assert_eq!(m.account(61).unwrap().balance, 1000);
    assert_eq!(m.account(TAKER_BID_ACCOUNT).unwrap().balance, 0);
}

#[test]
fn settlement_by_non_owner_is_rejected() {
    let mut m = market_with_order();
    top_up_bid_treasury(&mut m);
    let r = m.settle(ORDER_ID, OFFER_ID, MAKER, TAKER_BID_ACCOUNT);
    assert_eq!(r, Err(ErrorCode::InvalidPermission));
    assert_eq!(m.account(TAKER_BID_ACCOUNT).unwrap().balance, 0);
}

#[test]
fn settlement_of_missing_order_is_rejected() {
    let mut m = market_with_offer();
    let r = m.settle(ORDER_ID, OFFER_ID, TAKER, TAKER_BID_ACCOUNT);
    assert_eq!(r, Err(ErrorCode::UnknownOrder));
}

#[test]
fn pay_seller_pays_exactly_the_ask_amount() {
    let mut m = market_with_order();
    m.register_account(70, MAKER, ASK_ASSET, 0).unwrap();
    let r = m.pay_seller(ORDER_ID, 70);
    assert_eq!(r, Ok(()));
    assert_eq!(m.account(70).unwrap().balance, 1000);
    assert_eq!(m.account(ASK_TREASURY).unwrap().balance, 0);
}

#[test]
fn transfer_rejects_wrong_authority_proof() {
    let mut m = Market::new();
    m.register_account(MAKER_BID_ACCOUNT, MAKER, BID_ASSET, 500).unwrap();
    m.register_account(TAKER_BID_ACCOUNT, TAKER, BID_ASSET, 0).unwrap();
    let r = m.transfer(BID_ASSET, MAKER_BID_ACCOUNT, TAKER_BID_ACCOUNT, 100, TAKER);
    assert_eq!(r, Err(ErrorCode::AuthorizationDenied));
    assert_eq!(m.account(MAKER_BID_ACCOUNT).unwrap().balance, 500);
}

#[test]
fn transfer_rejects_wrong_asset() {
    let mut m = Market::new();
    m.register_account(MAKER_BID_ACCOUNT, MAKER, BID_ASSET, 500).unwrap();
    m.register_account(TAKER_ASK_ACCOUNT, TAKER, ASK_ASSET, 0).unwrap();
    let r = m.transfer(BID_ASSET, MAKER_BID_ACCOUNT, TAKER_ASK_ACCOUNT, 100, MAKER);
    assert_eq!(r, Err(ErrorCode::AccountMint));
}

#[test]
fn transfer_to_self_moves_nothing() {
    let mut m = Market::new();
    m.register_account(MAKER_BID_ACCOUNT, MAKER, BID_ASSET, 500).unwrap();
    let r = m.transfer(BID_ASSET, MAKER_BID_ACCOUNT, MAKER_BID_ACCOUNT, 100, MAKER);
    assert_eq!(r, Ok(()));
    assert_eq!(m.account(MAKER_BID_ACCOUNT).unwrap().balance, 500);
}

#[test]
fn transfer_rejects_receive_overflow() {
    let mut m = Market::new();
    m.register_account(MAKER_BID_ACCOUNT, MAKER, BID_ASSET, 500).unwrap();
    m.register_account(TAKER_BID_ACCOUNT, TAKER, BID_ASSET, u64::MAX).unwrap();
    let r = m.transfer(BID_ASSET, MAKER_BID_ACCOUNT, TAKER_BID_ACCOUNT, 100, MAKER);
    assert_eq!(r, Err(ErrorCode::Overflow));
    assert_eq!(m.account(TAKER_BID_ACCOUNT).unwrap().balance, u64::MAX);
    assert_eq!(m.account(MAKER_BID_ACCOUNT).unwrap().balance, 500);
}

#[test]
fn derive_authority_is_deterministic_and_offer_specific() {
    assert_eq!(derive_authority(OFFER_ID), derive_authority(OFFER_ID));
    assert_ne!(derive_authority(OFFER_ID), derive_authority(60));
}
