use std::collections::HashMap;
use vstd::prelude::*;

use crate::errors::ErrorCode;
use crate::model::{
    lemma_accounts_extended_wf, lemma_transfer_accounts, lemma_transfer_preserves_wf,
    spec_create_offer, spec_create_order, spec_pay_buyer, spec_pay_seller, spec_register_account,
    spec_settle, spec_transfer, MarketModel,
};
use crate::schema::{derive_authority, spec_derive_authority, Offer, Order, TokenAccount};

verus! {

broadcast use vstd::std_specs::hash::group_hash_axioms;

/// The market ledger: standing offers, open orders, and token accounts
/// (external accounts and treasuries alike), each keyed by its identifier.
/// All mutation goes through the operations below, each of which either
/// takes full effect or leaves the ledger exactly as it was.
pub struct Market {
    offers: HashMap<u64, Offer>,
    orders: HashMap<u64, Order>,
    accounts: HashMap<u64, TokenAccount>,
}

impl View for Market {
    type V = MarketModel;

    closed spec fn view(&self) -> MarketModel {
        MarketModel { offers: self.offers@, orders: self.orders@, accounts: self.accounts@ }
    }
}

impl Market {
    /// A market with no entries and no accounts.
    pub fn new() -> (r: Market)
        ensures
            r@ == MarketModel::empty(),
            r@.wf(),
    {
        let market = Market {
            offers: HashMap::new(),
            orders: HashMap::new(),
            accounts: HashMap::new(),
        };
        proof {
            assert(market@ =~= MarketModel::empty());
        }
        market
    }

    /// Register a fresh external token account, as the surrounding ledger
    /// would before any offer or order touches it.
    pub fn register_account(
        &mut self,
        id: u64,
        authority: u64,
        asset: u64,
        balance: u64,
    ) -> (r: Result<(), ErrorCode>)
        ensures
            r matches Ok(()) ==> spec_register_account(old(self)@, id, authority, asset, balance)
                == Ok::<MarketModel, ErrorCode>(final(self)@),
            r matches Err(e) ==> spec_register_account(old(self)@, id, authority, asset, balance)
                == Err::<MarketModel, ErrorCode>(e) && final(self)@ == old(self)@,
            old(self)@.wf() ==> final(self)@.wf(),
    {
        if self.accounts.contains_key(&id) {
            return Err(ErrorCode::EntryExists);
        }
        self.accounts.insert(id, TokenAccount { authority, asset, balance });
        proof {
            if old(self)@.wf() {
                lemma_accounts_extended_wf(old(self)@, self@);
            }
        }
        Ok(())
    }

    /// The asset-transfer primitive of the ledger: move `amount` units of
    /// `asset` from `from` to `to`, authorized by `authority_proof`. Either
    /// the whole transfer takes effect or, with a distinct error per cause,
    /// nothing does.
    pub fn transfer(
        &mut self,
        asset: u64,
        from: u64,
        to: u64,
        amount: u64,
        authority_proof: u64,
    ) -> (r: Result<(), ErrorCode>)
        ensures
            r matches Ok(()) ==> spec_transfer(old(self)@, asset, from, to, amount, authority_proof)
                == Ok::<MarketModel, ErrorCode>(final(self)@),
            r matches Err(e) ==> spec_transfer(old(self)@, asset, from, to, amount, authority_proof)
                == Err::<MarketModel, ErrorCode>(e) && final(self)@ == old(self)@,
            old(self)@.wf() ==> final(self)@.wf(),
    {
        let from_account = match self.accounts.get(&from) {
            Some(a) => *a,
            None => {
                return Err(ErrorCode::UnknownAccount);
            },
        };
        if from_account.asset != asset {
            return Err(ErrorCode::AccountMint);
        }
        if from_account.authority != authority_proof {
            return Err(ErrorCode::AuthorizationDenied);
        }
        if from_account.balance < amount {
            return Err(ErrorCode::InsufficientFunds);
        }
        let to_account = match self.accounts.get(&to) {
            Some(a) => *a,
            None => {
                return Err(ErrorCode::UnknownAccount);
            },
        };
        if to_account.asset != asset {
            return Err(ErrorCode::AccountMint);
        }
        if from == to {
            return Ok(());
        }
        if amount > u64::MAX - to_account.balance {
            return Err(ErrorCode::Overflow);
        }
        self.accounts.insert(
            from,
            TokenAccount {
                authority: from_account.authority,
                asset: from_account.asset,
                balance: from_account.balance - amount,
            },
        );
        self.accounts.insert(
            to,
            TokenAccount {
                authority: to_account.authority,
                asset: to_account.asset,
                balance: to_account.balance + amount,
            },
        );
        proof {
            let m0 = old(self)@;
            let m2 = m0.set_balance(from, (m0.accounts[from].balance - amount) as u64).set_balance(
                to,
                (m0.accounts[to].balance + amount) as u64,
            );
            assert(self@ =~= m2);
            assert(spec_transfer(m0, asset, from, to, amount, authority_proof) == Ok::<
                MarketModel,
                ErrorCode,
            >(m2));
            if m0.wf() {
                lemma_transfer_preserves_wf(m0, asset, from, to, amount, authority_proof, self@);
            }
        }
        Ok(())
    }

    /// Create a standing offer: allocate the entry, record the maker's
    /// terms, and fund the bid-side treasury with `bid_total` units of
    /// `bid_asset` from the maker's own account — one atomic unit of work.
    /// On any failure no entry is persisted and no funds move.
    pub fn create_offer(
        &mut self,
        offer_id: u64,
        owner: u64,
        bid_asset: u64,
        bid_total: u64,
        bid_rate: u64,
        treasury: u64,
        source: u64,
    ) -> (r: Result<(), ErrorCode>)
        requires
            bid_total > 0,
        ensures
            r matches Ok(()) ==> spec_create_offer(
                old(self)@,
                offer_id,
                owner,
                bid_asset,
                bid_total,
                bid_rate,
                treasury,
                source,
            ) == Ok::<MarketModel, ErrorCode>(final(self)@),
            r matches Err(e) ==> spec_create_offer(
                old(self)@,
                offer_id,
                owner,
                bid_asset,
                bid_total,
                bid_rate,
                treasury,
                source,
            ) == Err::<MarketModel, ErrorCode>(e) && final(self)@ == old(self)@,
            old(self)@.wf() ==> final(self)@.wf(),
    {
        if self.offers.contains_key(&offer_id) {
            return Err(ErrorCode::EntryExists);
        }
        if self.accounts.contains_key(&treasury) {
            return Err(ErrorCode::EntryExists);
        }
        let source_account = match self.accounts.get(&source) {
            Some(a) => *a,
            None => {
                return Err(ErrorCode::UnknownAccount);
            },
        };
        if source_account.asset != bid_asset {
            return Err(ErrorCode::AccountMint);
        }
        if source_account.authority != owner {
            return Err(ErrorCode::AuthorizationDenied);
        }
        if source_account.balance < bid_total {
            return Err(ErrorCode::InsufficientFunds);
        }
        self.accounts.insert(
            treasury,
            TokenAccount { authority: derive_authority(offer_id), asset: bid_asset, balance: 0 },
        );
        let ghost funded = self@;
        let deposit = self.transfer(bid_asset, source, treasury, bid_total, owner);
        match deposit {
            Err(e) => {
                proof {
                    assert(funded.accounts.contains_key(source));
                    assert(spec_transfer(funded, bid_asset, source, treasury, bid_total, owner)
                        is Ok);
                    assert(false);
                }
                Err(e)
            },
            Ok(()) => {
                let ghost m2 = self@;
                let offer = Offer {
                    owner_identity: owner,
                    bid_asset,
                    bid_total,
                    bid_rate,
                    treasury,
                };
                self.offers.insert(offer_id, offer);
                proof {
                    let m0 = old(self)@;
                    let fin = self@;
                    assert(spec_create_offer(
                        m0,
                        offer_id,
                        owner,
                        bid_asset,
                        bid_total,
                        bid_rate,
                        treasury,
                        source,
                    ) == Ok::<MarketModel, ErrorCode>(fin));
                    if m0.wf() {
                        assert forall|a: u64| #[trigger]
                            m0.accounts.contains_key(a) implies funded.accounts.contains_key(a)
                            && funded.accounts[a].authority == m0.accounts[a].authority
                            && funded.accounts[a].asset == m0.accounts[a].asset by {
                            assert(a != treasury);
                        }
                        lemma_accounts_extended_wf(m0, funded);
                        lemma_transfer_accounts(
                            funded,
                            bid_asset,
                            source,
                            treasury,
                            bid_total,
                            owner,
                            m2,
                        );
                        lemma_accounts_extended_wf(funded, m2);
                        assert forall|id: u64| #[trigger]
                            fin.offers.contains_key(id) implies fin.offer_wf(id) by {
                            if id == offer_id {
                                assert(funded.accounts.contains_key(treasury));
                                assert(m2.accounts.contains_key(treasury));
                                assert(m2.accounts[treasury].asset == bid_asset);
                                assert(m2.accounts[treasury].authority == spec_derive_authority(
                                    offer_id,
                                ));
                            } else {
                                assert(m2.offers.contains_key(id));
                                assert(m2.offer_wf(id));
                            }
                        }
                        assert forall|id: u64| #[trigger]
                            fin.orders.contains_key(id) implies fin.order_wf(id) by {
                            assert(m2.orders.contains_key(id));
                            assert(m2.order_wf(id));
                        }
                    }
                }
                Ok(())
            },
        }
    }

    /// Create an order against a standing offer. The exact-match
    /// auto-approval check runs first; only an approved order's ask-side
    /// deposit is attempted, and the entry is persisted only when that
    /// deposit succeeds. On any failure nothing is persisted and no funds
    /// move.
    pub fn create_order(
        &mut self,
        order_id: u64,
        owner: u64,
        offer_reference: u64,
        ask_asset: u64,
        ask_rate: u64,
        ask_amount: u64,
        treasury: u64,
        source: u64,
    ) -> (r: Result<(), ErrorCode>)
        requires
            ask_amount > 0,
        ensures
            r matches Ok(()) ==> spec_create_order(
                old(self)@,
                order_id,
                owner,
                offer_reference,
                ask_asset,
                ask_rate,
                ask_amount,
                treasury,
                source,
            ) == Ok::<MarketModel, ErrorCode>(final(self)@),
            r matches Err(e) ==> spec_create_order(
                old(self)@,
                order_id,
                owner,
                offer_reference,
                ask_asset,
                ask_rate,
                ask_amount,
                treasury,
                source,
            ) == Err::<MarketModel, ErrorCode>(e) && final(self)@ == old(self)@,
            old(self)@.wf() ==> final(self)@.wf(),
    {
        if self.orders.contains_key(&order_id) {
            return Err(ErrorCode::EntryExists);
        }
        let offer = match self.offers.get(&offer_reference) {
            Some(o) => *o,
            None => {
                return Err(ErrorCode::UnknownOffer);
            },
        };
        let order = Order { owner_identity: owner, offer_reference, ask_rate, ask_amount, treasury };
        if !order.auto_approve(&offer) {
            return Err(ErrorCode::NotEnoughBalance);
        }
        if self.accounts.contains_key(&treasury) {
            return Err(ErrorCode::EntryExists);
        }
        let source_account = match self.accounts.get(&source) {
            Some(a) => *a,
            None => {
                return Err(ErrorCode::UnknownAccount);
            },
        };
        if source_account.asset != ask_asset {
            return Err(ErrorCode::AccountMint);
        }
        if source_account.authority != owner {
            return Err(ErrorCode::AuthorizationDenied);
        }
        if source_account.balance < ask_amount {
            return Err(ErrorCode::InsufficientFunds);
        }
        self.accounts.insert(
            treasury,
            TokenAccount {
                authority: derive_authority(offer_reference),
                asset: ask_asset,
                balance: 0,
            },
        );
        let ghost funded = self@;
        let deposit = self.transfer(ask_asset, source, treasury, ask_amount, owner);
        match deposit {
            Err(e) => {
                proof {
                    assert(funded.accounts.contains_key(source));
                    assert(spec_transfer(funded, ask_asset, source, treasury, ask_amount, owner)
                        is Ok);
                    assert(false);
                }
                Err(e)
            },
            Ok(()) => {
                let ghost m2 = self@;
                self.orders.insert(order_id, order);
                proof {
                    let m0 = old(self)@;
                    let fin = self@;
                    assert(spec_create_order(
                        m0,
                        order_id,
                        owner,
                        offer_reference,
                        ask_asset,
                        ask_rate,
                        ask_amount,
                        treasury,
                        source,
                    ) == Ok::<MarketModel, ErrorCode>(fin));
                    if m0.wf() {
                        assert forall|a: u64| #[trigger]
                            m0.accounts.contains_key(a) implies funded.accounts.contains_key(a)
                            && funded.accounts[a].authority == m0.accounts[a].authority
                            && funded.accounts[a].asset == m0.accounts[a].asset by {
                            assert(a != treasury);
                        }
                        lemma_accounts_extended_wf(m0, funded);
                        lemma_transfer_accounts(
                            funded,
                            ask_asset,
                            source,
                            treasury,
                            ask_amount,
                            owner,
                            m2,
                        );
                        lemma_accounts_extended_wf(funded, m2);
                        assert forall|id: u64| #[trigger]
                            fin.offers.contains_key(id) implies fin.offer_wf(id) by {
                            assert(m2.offers.contains_key(id));
                            assert(m2.offer_wf(id));
                        }
                        assert forall|id: u64| #[trigger]
                            fin.orders.contains_key(id) implies fin.order_wf(id) by {
                            if id == order_id {
                                assert(funded.accounts.contains_key(treasury));
                                assert(m2.accounts.contains_key(treasury));
                                assert(m2.accounts[treasury].authority == spec_derive_authority(
                                    offer_reference,
                                ));
                            } else {
                                assert(m2.orders.contains_key(id));
                                assert(m2.order_wf(id));
                            }
                        }
                    }
                }
                Ok(())
            },
        }
    }

    /// The claim transfer: pay the order's counterparty twice the ask
    /// amount in bid asset out of the offer's treasury, authorized by the
    /// custodial authority derived from the offer's identifier — never by
    /// an external signer. Doubling past the numeric maximum fails with the
    /// overflow error rather than wrapping.
    pub fn pay_buyer(&mut self, offer_id: u64, order_id: u64, recipient: u64) -> (r: Result<
        (),
        ErrorCode,
    >)
        ensures
            r matches Ok(()) ==> spec_pay_buyer(old(self)@, offer_id, order_id, recipient) == Ok::<
                MarketModel,
                ErrorCode,
            >(final(self)@),
            r matches Err(e) ==> spec_pay_buyer(old(self)@, offer_id, order_id, recipient) == Err::<
                MarketModel,
                ErrorCode,
            >(e) && final(self)@ == old(self)@,
            old(self)@.wf() ==> final(self)@.wf(),
    {
        let offer = match self.offers.get(&offer_id) {
            Some(o) => *o,
            None => {
                return Err(ErrorCode::UnknownOffer);
            },
        };
        let order = match self.orders.get(&order_id) {
            Some(o) => *o,
            None => {
                return Err(ErrorCode::UnknownOrder);
            },
        };
        let claim = match crate::schema::claim_amount(order.ask_amount) {
            Some(c) => c,
            None => {
                return Err(ErrorCode::Overflow);
            },
        };
        self.transfer(offer.bid_asset, offer.treasury, recipient, claim, derive_authority(offer_id))
    }

    /// The fulfillment transfer: pay exactly the ask amount, in the asset
    /// the order's treasury holds, out of that treasury, authorized by the
    /// custodial authority derived from the referenced offer's identifier.
    /// No operation of the market invokes it; it is kept for the maker-side
    /// payout a later entry point may wire up.
    pub fn pay_seller(&mut self, order_id: u64, recipient: u64) -> (r: Result<(), ErrorCode>)
        ensures
            r matches Ok(()) ==> spec_pay_seller(old(self)@, order_id, recipient) == Ok::<
                MarketModel,
                ErrorCode,
            >(final(self)@),
            r matches Err(e) ==> spec_pay_seller(old(self)@, order_id, recipient) == Err::<
                MarketModel,
                ErrorCode,
            >(e) && final(self)@ == old(self)@,
            old(self)@.wf() ==> final(self)@.wf(),
    {
        let order = match self.orders.get(&order_id) {
            Some(o) => *o,
            None => {
                return Err(ErrorCode::UnknownOrder);
            },
        };
        let treasury_account = match self.accounts.get(&order.treasury) {
            Some(a) => *a,
            None => {
                return Err(ErrorCode::UnknownAccount);
            },
        };
        self.transfer(
            treasury_account.asset,
            order.treasury,
            recipient,
            order.ask_amount,
            derive_authority(order.offer_reference),
        )
    }

    /// Settlement, initiated by the taker: the caller must be the order's
    /// owner and the presented offer must be the one the order recorded;
    /// only then is the claim transfer attempted. A rejected settlement
    /// executes zero transfers.
    pub fn settle(&mut self, order_id: u64, offer_id: u64, caller: u64, recipient: u64) -> (r:
        Result<(), ErrorCode>)
        ensures
            r matches Ok(()) ==> spec_settle(old(self)@, order_id, offer_id, caller, recipient)
                == Ok::<MarketModel, ErrorCode>(final(self)@),
            r matches Err(e) ==> spec_settle(old(self)@, order_id, offer_id, caller, recipient)
                == Err::<MarketModel, ErrorCode>(e) && final(self)@ == old(self)@,
            old(self)@.wf() ==> final(self)@.wf(),
    {
        let order = match self.orders.get(&order_id) {
            Some(o) => *o,
            None => {
                return Err(ErrorCode::UnknownOrder);
            },
        };
        if order.owner_identity != caller {
            return Err(ErrorCode::InvalidPermission);
        }
        if order.offer_reference != offer_id {
            return Err(ErrorCode::LinkageMismatch);
        }
        self.pay_buyer(offer_id, order_id, recipient)
    }

    /// The offer recorded under `offer_id`, if any.
    pub fn offer(&self, offer_id: u64) -> (r: Option<Offer>)
        ensures
            r == if self@.offers.contains_key(offer_id) {
                Some(self@.offers[offer_id])
            } else {
                None::<Offer>
            },
    {
        match self.offers.get(&offer_id) {
            Some(o) => Some(*o),
            None => None,
        }
    }

    /// The order recorded under `order_id`, if any.
    pub fn order(&self, order_id: u64) -> (r: Option<Order>)
        ensures
            r == if self@.orders.contains_key(order_id) {
                Some(self@.orders[order_id])
            } else {
                None::<Order>
            },
    {
        match self.orders.get(&order_id) {
            Some(o) => Some(*o),
            None => None,
        }
    }

    /// The token account recorded under `id`, if any — treasuries included.
    pub fn account(&self, id: u64) -> (r: Option<TokenAccount>)
        ensures
            r == if self@.accounts.contains_key(id) {
                Some(self@.accounts[id])
            } else {
                None::<TokenAccount>
            },
    {
        match self.accounts.get(&id) {
            Some(a) => Some(*a),
            None => None,
        }
    }
}

} // verus!
