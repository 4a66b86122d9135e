//! The marketplace ledger: owns the NFT records, the global transaction
//! log and the global royalty-payment log, and executes the buy protocol
//! with its royalty split as one atomic step.

use vstd::prelude::*;
use vstd::string::StringExecFns;
use crate::ids::IdAllocator;
use crate::text::{
    buy_message,
    buy_message_view,
    price_update_message,
    price_update_message_view,
    transaction_id_string,
    transaction_id_view,
};
use crate::types::{MarketError, NFTMetadata, RoyaltyPayment, Transaction, TransactionKind};
use crate::types::clone_transactions;

verus! {

/// The royalty owed for a sale of `n` at its current price: a tenth-like
/// percentage cut for the creator, floored, and nothing at all when the
/// seller is the creator.
pub open spec fn spec_royalty_amount(n: NFTMetadata) -> int {
    if n.creator@ != n.current_owner@ {
        (n.price as int) * (n.royalty_percentage as int) / 100
    } else {
        0
    }
}

/// What the seller keeps of a sale of `n`: the price minus the royalty.
pub open spec fn spec_seller_amount(n: NFTMetadata) -> int {
    n.price - spec_royalty_amount(n)
}

/// The records of `s` whose current owner is spelled `user`, in order.
pub open spec fn owned_by(s: Seq<NFTMetadata>, user: Seq<char>) -> Seq<NFTMetadata>
    decreases s.len(),
{
    if s.len() == 0 {
        Seq::empty()
    } else {
        let rest = owned_by(s.drop_last(), user);
        if s.last().current_owner@ == user {
            rest.push(s.last())
        } else {
            rest
        }
    }
}

/// The records of `s` whose creator is spelled `user`, in order.
pub open spec fn created_by(s: Seq<NFTMetadata>, user: Seq<char>) -> Seq<NFTMetadata>
    decreases s.len(),
{
    if s.len() == 0 {
        Seq::empty()
    } else {
        let rest = created_by(s.drop_last(), user);
        if s.last().creator@ == user {
            rest.push(s.last())
        } else {
            rest
        }
    }
}

/// The payments of `s` whose recipient is spelled `user`, in order.
pub open spec fn earnings_of(s: Seq<RoyaltyPayment>, user: Seq<char>) -> Seq<RoyaltyPayment>
    decreases s.len(),
{
    if s.len() == 0 {
        Seq::empty()
    } else {
        let rest = earnings_of(s.drop_last(), user);
        if s.last().recipient@ == user {
            rest.push(s.last())
        } else {
            rest
        }
    }
}

/// How many records of `s` are offered for sale.
pub open spec fn count_for_sale(s: Seq<NFTMetadata>) -> int
    decreases s.len(),
{
    if s.len() == 0 {
        0
    } else {
        count_for_sale(s.drop_last()) + if s.last().is_for_sale {
            1int
        } else {
            0int
        }
    }
}

/// How many entries of `s` record a sale (mints and transfers do not
/// count).
pub open spec fn count_sales(s: Seq<Transaction>) -> int
    decreases s.len(),
{
    if s.len() == 0 {
        0
    } else {
        count_sales(s.drop_last()) + if s.last().kind == TransactionKind::Sale {
            1int
        } else {
            0int
        }
    }
}

/// The summed price of the sale entries of `s`.
pub open spec fn sum_sales(s: Seq<Transaction>) -> int
    decreases s.len(),
{
    if s.len() == 0 {
        0
    } else {
        sum_sales(s.drop_last()) + if s.last().kind == TransactionKind::Sale {
            s.last().price as int
        } else {
            0int
        }
    }
}

/// A prefix of the log never counts more sale volume than the whole log.
pub proof fn lemma_sum_sales_prefix(s: Seq<Transaction>, i: int)
    requires
        0 <= i <= s.len(),
    ensures
        sum_sales(s.subrange(0, i)) <= sum_sales(s),
    decreases s.len() - i,
{
    if i == s.len() {
        assert(s.subrange(0, i) =~= s);
    } else {
        let sub1 = s.subrange(0, i + 1);
        assert(sub1.drop_last() =~= s.subrange(0, i));
        lemma_sum_sales_prefix(s, i + 1);
    }
}

/// Owns the NFT records and the two global logs; identifiers come from
/// its own allocator.
pub struct Marketplace {
    pub nfts: Vec<NFTMetadata>,
    pub transactions: Vec<Transaction>,
    pub royalty_payments: Vec<RoyaltyPayment>,
    pub ids: IdAllocator,
}

impl Marketplace {
    /// Ledger invariant: every NFT identifier was issued by the
    /// allocator, identifiers are pairwise distinct, and every record
    /// satisfies the record invariant.
    pub open spec fn wf(self) -> bool {
        &&& self.ids.wf()
        &&& forall|i: int|
            0 <= i < self.nfts@.len() ==> 1 <= (#[trigger] self.nfts@[i]).id < self.ids.next_id
        &&& forall|i: int, j: int|
            #![trigger self.nfts@[i], self.nfts@[j]]
            0 <= i < j < self.nfts@.len() ==> self.nfts@[i].id != self.nfts@[j].id
        &&& forall|i: int| 0 <= i < self.nfts@.len() ==> (#[trigger] self.nfts@[i]).wf()
    }

    /// Is some record stored under this identifier?
    pub open spec fn has_nft(self, id: u64) -> bool {
        exists|i: int| 0 <= i < self.nfts@.len() && self.nfts@[i].id == id
    }

    /// The position of the record stored under this identifier.
    pub open spec fn nft_idx(self, id: u64) -> int {
        choose|i: int| 0 <= i < self.nfts@.len() && self.nfts@[i].id == id
    }

    /// The record stored under this identifier.
    pub open spec fn nft_at(self, id: u64) -> NFTMetadata {
        self.nfts@[self.nft_idx(id)]
    }

    /// An empty ledger.
    pub fn new() -> (r: Self)
        ensures
            r.wf(),
            r.nfts@.len() == 0,
            r.transactions@.len() == 0,
            r.royalty_payments@.len() == 0,
            r.ids.next_id == 1,
    {
        Marketplace {
            nfts: Vec::new(),
            transactions: Vec::new(),
            royalty_payments: Vec::new(),
            ids: IdAllocator::new(),
        }
    }

    /// Locate a record by identifier.
    fn find_nft(&self, nft_id: u64) -> (r: Option<usize>)
        requires
            self.wf(),
        ensures
            match r {
                Some(i) => i < self.nfts@.len() && self.nfts@[i as int].id == nft_id && i as int
                    == self.nft_idx(nft_id) && self.has_nft(nft_id),
                None => !self.has_nft(nft_id),
            },
    {
        let mut i: usize = 0;
        while i < self.nfts.len()
            invariant
                self.wf(),
                i <= self.nfts@.len(),
                forall|j: int| 0 <= j < i ==> (#[trigger] self.nfts@[j]).id != nft_id,
            decreases self.nfts@.len() - i,
        {
            if self.nfts[i].id == nft_id {
                proof {
                    assert(self.has_nft(nft_id));
                    let k = self.nft_idx(nft_id);
                    assert(0 <= k < self.nfts@.len() && self.nfts@[k].id == nft_id);
                    if k < i as int {
                        assert(self.nfts@[k].id != self.nfts@[i as int].id);
                    } else if k > i as int {
                        assert(self.nfts@[i as int].id != self.nfts@[k].id);
                    }
                }
                return Some(i);
            }
            i = i + 1;
        }
        None
    }

    /// Mint a fresh NFT: allocate its identifier, hand ownership to the
    /// creator, fix the royalty rate at 10 percent, offer it for sale,
    /// and record the mint transaction both as the first entry of the
    /// record's own history and in the global log.  Always succeeds; the
    /// identifier is distinct from that of every stored record.
    pub fn mint_nft(
        &mut self,
        name: String,
        description: String,
        image_url: String,
        creator: String,
        project_id: u64,
        price: u64,
        category: String,
        timestamp: u64,
    ) -> (id: u64)
        requires
            old(self).wf(),
            old(self).ids.next_id < u64::MAX,
        ensures
            final(self).wf(),
            id == old(self).ids.next_id,
            final(self).ids.next_id == old(self).ids.next_id + 1,
            forall|i: int|
                0 <= i < old(self).nfts@.len() ==> (#[trigger] old(self).nfts@[i]).id != id,
            final(self).nfts@.len() == old(self).nfts@.len() + 1,
            final(self).nfts@.subrange(0, old(self).nfts@.len() as int) == old(self).nfts@,
            final(self).has_nft(id),
            ({
                let n = final(self).nfts@.last();
                &&& n.id == id
                &&& n.name == name
                &&& n.description == description
                &&& n.image_url == image_url
                &&& n.creator == creator
                &&& n.current_owner == creator
                &&& n.project_id == project_id
                &&& n.price == price
                &&& n.is_for_sale == true
                &&& n.royalty_percentage == 10
                &&& n.created_at == timestamp
                &&& n.view_count == 0
                &&& n.category == category
                &&& n.sale_history@.len() == 1
                &&& n.sale_history@[0].from@ == "system"@
                &&& n.sale_history@[0].to == creator
                &&& n.sale_history@[0].price == 0
                &&& n.sale_history@[0].timestamp == timestamp
                &&& n.sale_history@[0].kind == TransactionKind::Mint
            }),
            final(self).transactions@.len() == old(self).transactions@.len() + 1,
            final(self).transactions@.subrange(0, old(self).transactions@.len() as int) == old(
                self,
            ).transactions@,
            final(self).transactions@.last() == final(self).nfts@.last().sale_history@[0],
            final(self).royalty_payments == old(self).royalty_payments,
    {
        let id = self.ids.next();
        let mint_transaction = Transaction {
            from: String::from_str("system"),
            to: creator.clone(),
            price: 0,
            timestamp,
            kind: TransactionKind::Mint,
        };
        let mut sale_history: Vec<Transaction> = Vec::new();
        sale_history.push(mint_transaction.clone());
        let nft = NFTMetadata {
            id,
            name,
            description,
            image_url,
            creator: creator.clone(),
            current_owner: creator,
            project_id,
            price,
            is_for_sale: true,
            royalty_percentage: 10,
            created_at: timestamp,
            view_count: 0,
            sale_history,
            category,
        };
        self.nfts.push(nft);
        self.transactions.push(mint_transaction);
        proof {
            let n = old(self).nfts@.len() as int;
            assert(self.nfts@.subrange(0, n) =~= old(self).nfts@);
            assert(self.transactions@.subrange(0, old(self).transactions@.len() as int) =~= old(
                self,
            ).transactions@);
            assert(self.nfts@[n].id == id);
            assert(final(self).has_nft(id));
        }
        id
    }

    /// Copies of all records, in insertion order; reading this way does
    /// not touch any view counter.
    pub fn list_nfts(&self) -> (r: Vec<NFTMetadata>)
        requires
            self.wf(),
        ensures
            r@.len() == self.nfts@.len(),
            forall|i: int| 0 <= i < r@.len() ==> (#[trigger] r@[i]).equiv(self.nfts@[i]),
    {
        let mut r: Vec<NFTMetadata> = Vec::new();
        let mut i: usize = 0;
        while i < self.nfts.len()
            invariant
                i <= self.nfts@.len(),
                r@.len() == i,
                forall|j: int| 0 <= j < i ==> (#[trigger] r@[j]).equiv(self.nfts@[j]),
            decreases self.nfts@.len() - i,
        {
            r.push(self.nfts[i].clone());
            i = i + 1;
        }
        r
    }

    /// Read a copy of the named record and count the read: the record's
    /// view counter advances by exactly one.  Nothing else changes; an
    /// unknown identifier changes nothing at all.
    pub fn get_nft(&mut self, nft_id: u64) -> (r: Option<NFTMetadata>)
        requires
            old(self).wf(),
            old(self).has_nft(nft_id) ==> old(self).nft_at(nft_id).view_count < u64::MAX,
        ensures
            final(self).wf(),
            !old(self).has_nft(nft_id) ==> r is None && *final(self) == *old(self),
            old(self).has_nft(nft_id) ==> ({
                let idx = old(self).nft_idx(nft_id);
                let n0 = old(self).nfts@[idx];
                let n1 = final(self).nfts@[idx];
                &&& r is Some
                &&& (r matches Some(p) ==> p.equiv(n1))
                &&& final(self).ids == old(self).ids
                &&& final(self).transactions == old(self).transactions
                &&& final(self).royalty_payments == old(self).royalty_payments
                &&& final(self).nfts@.len() == old(self).nfts@.len()
                &&& (forall|j: int|
                    0 <= j < old(self).nfts@.len() && j != idx ==> final(self).nfts@[j] == old(
                        self,
                    ).nfts@[j])
                &&& n1.view_count == n0.view_count + 1
                &&& n1.id == n0.id
                &&& n1.name == n0.name
                &&& n1.description == n0.description
                &&& n1.image_url == n0.image_url
                &&& n1.creator == n0.creator
                &&& n1.current_owner == n0.current_owner
                &&& n1.project_id == n0.project_id
                &&& n1.price == n0.price
                &&& n1.is_for_sale == n0.is_for_sale
                &&& n1.royalty_percentage == n0.royalty_percentage
                &&& n1.created_at == n0.created_at
                &&& n1.sale_history == n0.sale_history
                &&& n1.category == n0.category
            }),
    {
        match self.find_nft(nft_id) {
            Some(i) => {
                let n = &mut self.nfts[i];
                n.view_count = n.view_count + 1;
                Some(self.nfts[i].clone())
            },
            None => None,
        }
    }

    /// Execute a purchase as one atomic step.  On success the ownership
    /// moves to the buyer, the sale enters both the record's history and
    /// the global log, the creator's royalty (if one is owed) enters the
    /// royalty log, and the confirmation names the seller's and the
    /// creator's amounts.  On any error nothing changes at all.
    pub fn buy_nft(&mut self, nft_id: u64, buyer: String, timestamp: u64) -> (r: Result<
        String,
        MarketError,
    >)
        requires
            old(self).wf(),
        ensures
            final(self).wf(),
            !old(self).has_nft(nft_id) ==> r == Err::<String, MarketError>(MarketError::NotFound)
                && *final(self) == *old(self),
            old(self).has_nft(nft_id) && !old(self).nft_at(nft_id).is_for_sale ==> r == Err::<
                String,
                MarketError,
            >(MarketError::NotForSale) && *final(self) == *old(self),
            old(self).has_nft(nft_id) && old(self).nft_at(nft_id).is_for_sale && old(self).nft_at(
                nft_id,
            ).current_owner@ == buyer@ ==> r == Err::<String, MarketError>(
                MarketError::SelfPurchase,
            ) && *final(self) == *old(self),
            old(self).has_nft(nft_id) && old(self).nft_at(nft_id).is_for_sale && old(self).nft_at(
                nft_id,
            ).current_owner@ != buyer@ ==> ({
                let idx = old(self).nft_idx(nft_id);
                let n0 = old(self).nfts@[idx];
                let n1 = final(self).nfts@[idx];
                let roy = spec_royalty_amount(n0);
                let sell = spec_seller_amount(n0);
                let tx = (Transaction {
                    from: n0.current_owner,
                    to: buyer,
                    price: n0.price,
                    timestamp,
                    kind: TransactionKind::Sale,
                });
                &&& r is Ok
                &&& r->Ok_0@ == buy_message_view(sell as nat, roy as nat)
                &&& final(self).ids == old(self).ids
                &&& final(self).nfts@.len() == old(self).nfts@.len()
                &&& (forall|j: int|
                    0 <= j < old(self).nfts@.len() && j != idx ==> final(self).nfts@[j] == old(
                        self,
                    ).nfts@[j])
                &&& n1.current_owner == buyer
                &&& n1.sale_history@ == n0.sale_history@.push(tx)
                &&& n1.id == n0.id
                &&& n1.name == n0.name
                &&& n1.description == n0.description
                &&& n1.image_url == n0.image_url
                &&& n1.creator == n0.creator
                &&& n1.project_id == n0.project_id
                &&& n1.price == n0.price
                &&& n1.is_for_sale == n0.is_for_sale
                &&& n1.royalty_percentage == n0.royalty_percentage
                &&& n1.created_at == n0.created_at
                &&& n1.view_count == n0.view_count
                &&& n1.category == n0.category
                &&& final(self).transactions@ == old(self).transactions@.push(tx)
                &&& roy > 0 ==> ({
                    let p = final(self).royalty_payments@.last();
                    &&& final(self).royalty_payments@.len() == old(self).royalty_payments@.len()
                        + 1
                    &&& final(self).royalty_payments@.subrange(
                        0,
                        old(self).royalty_payments@.len() as int,
                    ) == old(self).royalty_payments@
                    &&& p.recipient == n0.creator
                    &&& p.amount == roy
                    &&& p.nft_id == nft_id
                    &&& p.transaction_id@ == transaction_id_view(nft_id as nat, timestamp as nat)
                })
                &&& roy == 0 ==> final(self).royalty_payments == old(self).royalty_payments
            }),
    {
        let i = match self.find_nft(nft_id) {
            Some(i) => i,
            None => {
                return Err(MarketError::NotFound);
            },
        };
        if !self.nfts[i].is_for_sale {
            return Err(MarketError::NotForSale);
        }
        if self.nfts[i].current_owner == buyer {
            return Err(MarketError::SelfPurchase);
        }
        let sale_price = self.nfts[i].price;
        let seller = self.nfts[i].current_owner.clone();
        let creator = self.nfts[i].creator.clone();
        let royalty_percentage = self.nfts[i].royalty_percentage;

        let royalty_amount: u64 = if creator != seller {
            proof {
                let p = sale_price as int;
                let rr = royalty_percentage as int;
                assert(p * rr <= p * 100) by (nonlinear_arith)
                    requires
                        0 <= p,
                        rr <= 100,
                ;
                assert(p * 100 / 100 == p) by (nonlinear_arith);
                vstd::arithmetic::div_mod::lemma_div_is_ordered(p * rr, p * 100, 100);
            }
            (((sale_price as u128) * (royalty_percentage as u128)) / 100) as u64
        } else {
            0
        };
        let seller_amount = sale_price - royalty_amount;

        let sale_transaction = Transaction {
            from: seller.clone(),
            to: buyer.clone(),
            price: sale_price,
            timestamp,
            kind: TransactionKind::Sale,
        };
        let n = &mut self.nfts[i];
        n.current_owner = buyer.clone();
        n.sale_history.push(sale_transaction.clone());
        self.transactions.push(sale_transaction);
        if royalty_amount > 0 {
            let payment = RoyaltyPayment {
                recipient: creator,
                amount: royalty_amount,
                nft_id,
                transaction_id: transaction_id_string(nft_id, timestamp),
            };
            self.royalty_payments.push(payment);
            proof {
                assert(self.royalty_payments@.subrange(
                    0,
                    old(self).royalty_payments@.len() as int,
                ) =~= old(self).royalty_payments@);
            }
        }
        Ok(buy_message(seller_amount, royalty_amount))
    }

    /// Set a new asking price; only the current owner may.  The
    /// confirmation names the old and the new price.  On any error
    /// nothing changes at all.
    pub fn update_nft_price(&mut self, nft_id: u64, new_price: u64, owner: String) -> (r: Result<
        String,
        MarketError,
    >)
        requires
            old(self).wf(),
        ensures
            final(self).wf(),
            !old(self).has_nft(nft_id) ==> r == Err::<String, MarketError>(MarketError::NotFound)
                && *final(self) == *old(self),
            old(self).has_nft(nft_id) && old(self).nft_at(nft_id).current_owner@ != owner@ ==> r
                == Err::<String, MarketError>(MarketError::NotOwner) && *final(self) == *old(self),
            old(self).has_nft(nft_id) && old(self).nft_at(nft_id).current_owner@ == owner@ ==> ({
                let idx = old(self).nft_idx(nft_id);
                let n0 = old(self).nfts@[idx];
                let n1 = final(self).nfts@[idx];
                &&& r is Ok
                &&& r->Ok_0@ == price_update_message_view(n0.price as nat, new_price as nat)
                &&& final(self).ids == old(self).ids
                &&& final(self).transactions == old(self).transactions
                &&& final(self).royalty_payments == old(self).royalty_payments
                &&& final(self).nfts@.len() == old(self).nfts@.len()
                &&& (forall|j: int|
                    0 <= j < old(self).nfts@.len() && j != idx ==> final(self).nfts@[j] == old(
                        self,
                    ).nfts@[j])
                &&& n1.price == new_price
                &&& n1.id == n0.id
                &&& n1.name == n0.name
                &&& n1.description == n0.description
                &&& n1.image_url == n0.image_url
                &&& n1.creator == n0.creator
                &&& n1.current_owner == n0.current_owner
                &&& n1.project_id == n0.project_id
                &&& n1.is_for_sale == n0.is_for_sale
                &&& n1.royalty_percentage == n0.royalty_percentage
                &&& n1.created_at == n0.created_at
                &&& n1.view_count == n0.view_count
                &&& n1.sale_history == n0.sale_history
                &&& n1.category == n0.category
            }),
    {
        let i = match self.find_nft(nft_id) {
            Some(i) => i,
            None => {
                return Err(MarketError::NotFound);
            },
        };
        if !(self.nfts[i].current_owner == owner) {
            return Err(MarketError::NotOwner);
        }
        let old_price = self.nfts[i].price;
        let n = &mut self.nfts[i];
        n.price = new_price;
        Ok(price_update_message(old_price, new_price))
    }

    /// Offer the record for sale or withdraw it; only the current owner
    /// may.  On any error nothing changes at all.
    pub fn set_nft_for_sale(&mut self, nft_id: u64, for_sale: bool, owner: String) -> (r: Result<
        String,
        MarketError,
    >)
        requires
            old(self).wf(),
        ensures
            final(self).wf(),
            !old(self).has_nft(nft_id) ==> r == Err::<String, MarketError>(MarketError::NotFound)
                && *final(self) == *old(self),
            old(self).has_nft(nft_id) && old(self).nft_at(nft_id).current_owner@ != owner@ ==> r
                == Err::<String, MarketError>(MarketError::NotOwner) && *final(self) == *old(self),
            old(self).has_nft(nft_id) && old(self).nft_at(nft_id).current_owner@ == owner@ ==> ({
                let idx = old(self).nft_idx(nft_id);
                let n0 = old(self).nfts@[idx];
                let n1 = final(self).nfts@[idx];
                &&& r is Ok
                &&& for_sale ==> r->Ok_0@ == "NFT is now for sale"@
                &&& !for_sale ==> r->Ok_0@ == "NFT removed from sale"@
                &&& final(self).ids == old(self).ids
                &&& final(self).transactions == old(self).transactions
                &&& final(self).royalty_payments == old(self).royalty_payments
                &&& final(self).nfts@.len() == old(self).nfts@.len()
                &&& (forall|j: int|
                    0 <= j < old(self).nfts@.len() && j != idx ==> final(self).nfts@[j] == old(
                        self,
                    ).nfts@[j])
                &&& n1.is_for_sale == for_sale
                &&& n1.id == n0.id
                &&& n1.name == n0.name
                &&& n1.description == n0.description
                &&& n1.image_url == n0.image_url
                &&& n1.creator == n0.creator
                &&& n1.current_owner == n0.current_owner
                &&& n1.project_id == n0.project_id
                &&& n1.price == n0.price
                &&& n1.royalty_percentage == n0.royalty_percentage
                &&& n1.created_at == n0.created_at
                &&& n1.view_count == n0.view_count
                &&& n1.sale_history == n0.sale_history
                &&& n1.category == n0.category
            }),
    {
        let i = match self.find_nft(nft_id) {
            Some(i) => i,
            None => {
                return Err(MarketError::NotFound);
            },
        };
        if !(self.nfts[i].current_owner == owner) {
            return Err(MarketError::NotOwner);
        }
        let n = &mut self.nfts[i];
        n.is_for_sale = for_sale;
        if for_sale {
            Ok(String::from_str("NFT is now for sale"))
        } else {
            Ok(String::from_str("NFT removed from sale"))
        }
    }

    /// The named record's own sale history, empty when it is unknown.
    /// Reading this way does not touch any view counter.
    pub fn get_nft_transactions(&self, nft_id: u64) -> (r: Vec<Transaction>)
        requires
            self.wf(),
        ensures
            self.has_nft(nft_id) ==> r@ == self.nft_at(nft_id).sale_history@,
            !self.has_nft(nft_id) ==> r@.len() == 0,
    {
        match self.find_nft(nft_id) {
            Some(i) => clone_transactions(&self.nfts[i].sale_history),
            None => Vec::new(),
        }
    }

    /// Copies of the records currently owned by `user`, in order.
    pub fn get_user_nfts(&self, user: String) -> (r: Vec<NFTMetadata>)
        requires
            self.wf(),
        ensures
            r@.len() == owned_by(self.nfts@, user@).len(),
            forall|i: int|
                0 <= i < r@.len() ==> (#[trigger] r@[i]).equiv(owned_by(self.nfts@, user@)[i]),
    {
        let mut r: Vec<NFTMetadata> = Vec::new();
        let mut i: usize = 0;
        while i < self.nfts.len()
            invariant
                i <= self.nfts@.len(),
                r@.len() == owned_by(self.nfts@.subrange(0, i as int), user@).len(),
                forall|j: int|
                    0 <= j < r@.len() ==> (#[trigger] r@[j]).equiv(
                        owned_by(self.nfts@.subrange(0, i as int), user@)[j],
                    ),
            decreases self.nfts@.len() - i,
        {
            proof {
                let sub1 = self.nfts@.subrange(0, i as int + 1);
                assert(sub1.drop_last() =~= self.nfts@.subrange(0, i as int));
                assert(sub1.last() == self.nfts@[i as int]);
            }
            if self.nfts[i].current_owner == user {
                r.push(self.nfts[i].clone());
            }
            i = i + 1;
        }
        proof {
            assert(self.nfts@.subrange(0, self.nfts@.len() as int) =~= self.nfts@);
        }
        r
    }

    /// Copies of the records created by `user`, in order.
    pub fn get_user_created_nfts(&self, user: String) -> (r: Vec<NFTMetadata>)
        requires
            self.wf(),
        ensures
            r@.len() == created_by(self.nfts@, user@).len(),
            forall|i: int|
                0 <= i < r@.len() ==> (#[trigger] r@[i]).equiv(created_by(self.nfts@, user@)[i]),
    {
        let mut r: Vec<NFTMetadata> = Vec::new();
        let mut i: usize = 0;
        while i < self.nfts.len()
            invariant
                i <= self.nfts@.len(),
                r@.len() == created_by(self.nfts@.subrange(0, i as int), user@).len(),
                forall|j: int|
                    0 <= j < r@.len() ==> (#[trigger] r@[j]).equiv(
                        created_by(self.nfts@.subrange(0, i as int), user@)[j],
                    ),
            decreases self.nfts@.len() - i,
        {
            proof {
                let sub1 = self.nfts@.subrange(0, i as int + 1);
                assert(sub1.drop_last() =~= self.nfts@.subrange(0, i as int));
                assert(sub1.last() == self.nfts@[i as int]);
            }
            if self.nfts[i].creator == user {
                r.push(self.nfts[i].clone());
            }
            i = i + 1;
        }
        proof {
            assert(self.nfts@.subrange(0, self.nfts@.len() as int) =~= self.nfts@);
        }
        r
    }

    /// The royalty payments whose recipient is `user`, in order.
    pub fn get_user_royalty_earnings(&self, user: String) -> (r: Vec<RoyaltyPayment>)
        requires
            self.wf(),
        ensures
            r@ == earnings_of(self.royalty_payments@, user@),
    {
        let mut r: Vec<RoyaltyPayment> = Vec::new();
        let mut i: usize = 0;
        while i < self.royalty_payments.len()
            invariant
                i <= self.royalty_payments@.len(),
                r@ == earnings_of(self.royalty_payments@.subrange(0, i as int), user@),
            decreases self.royalty_payments@.len() - i,
        {
            proof {
                let sub1 = self.royalty_payments@.subrange(0, i as int + 1);
                assert(sub1.drop_last() =~= self.royalty_payments@.subrange(0, i as int));
                assert(sub1.last() == self.royalty_payments@[i as int]);
            }
            if self.royalty_payments[i].recipient == user {
                r.push(self.royalty_payments[i].clone());
            }
            i = i + 1;
        }
        proof {
            assert(self.royalty_payments@.subrange(0, self.royalty_payments@.len() as int)
                =~= self.royalty_payments@);
        }
        r
    }

    /// Aggregate statistics: how many records exist, how many are for
    /// sale, and the count and summed volume of the sale transactions in
    /// the global log (mints and transfers are not counted).
    pub fn get_marketplace_stats(&self) -> (r: (u64, u64, u64, u64))
        requires
            self.wf(),
            sum_sales(self.transactions@) <= u64::MAX,
        ensures
            r.0 == self.nfts@.len(),
            r.1 == count_for_sale(self.nfts@),
            r.2 == count_sales(self.transactions@),
            r.3 == sum_sales(self.transactions@),
    {
        let total_nfts: u64 = self.nfts.len() as u64;

        let mut nfts_for_sale: u64 = 0;
        let mut i: usize = 0;
        while i < self.nfts.len()
            invariant
                i <= self.nfts@.len(),
                nfts_for_sale == count_for_sale(self.nfts@.subrange(0, i as int)),
                nfts_for_sale <= i,
            decreases self.nfts@.len() - i,
        {
            proof {
                let sub1 = self.nfts@.subrange(0, i as int + 1);
                assert(sub1.drop_last() =~= self.nfts@.subrange(0, i as int));
                assert(sub1.last() == self.nfts@[i as int]);
            }
            if self.nfts[i].is_for_sale {
                nfts_for_sale = nfts_for_sale + 1;
            }
            i = i + 1;
        }
        proof {
            assert(self.nfts@.subrange(0, self.nfts@.len() as int) =~= self.nfts@);
        }

        let mut total_transactions: u64 = 0;
        let mut total_volume: u64 = 0;
        let mut j: usize = 0;
        while j < self.transactions.len()
            invariant
                j <= self.transactions@.len(),
                sum_sales(self.transactions@) <= u64::MAX,
                total_transactions == count_sales(self.transactions@.subrange(0, j as int)),
                total_transactions <= j,
                total_volume == sum_sales(self.transactions@.subrange(0, j as int)),
            decreases self.transactions@.len() - j,
        {
            proof {
                let sub1 = self.transactions@.subrange(0, j as int + 1);
                assert(sub1.drop_last() =~= self.transactions@.subrange(0, j as int));
                assert(sub1.last() == self.transactions@[j as int]);
                lemma_sum_sales_prefix(self.transactions@, j as int + 1);
            }
            if self.transactions[j].kind == TransactionKind::Sale {
                total_transactions = total_transactions + 1;
                total_volume = total_volume + self.transactions[j].price;
            }
            j = j + 1;
        }
        proof {
            assert(self.transactions@.subrange(0, self.transactions@.len() as int)
                =~= self.transactions@);
        }

        (total_nfts, nfts_for_sale, total_transactions, total_volume)
    }
}

} // verus!
