//! The laws of the ledger, stated once and proved for every state and
//! input, over the same models the operations' contracts use.

use vstd::prelude::*;
use crate::market::{spec_royalty_amount, spec_seller_amount, Marketplace};
use crate::projects::{add_contributor_model, contains_ident, ProjectStore};
use crate::types::NFTMetadata;

verus! {

/// Project identifiers are unique and never reused: every stored
/// identifier lies strictly below the allocator counter, so whatever the
/// allocator issues next is fresh - and removals never free one, since
/// the counter only grows (see `create_project`: the identifier returned
/// is the counter, which then strictly increases).
pub proof fn lemma_project_ids_unique_and_fresh(s: ProjectStore)
    requires
        s.wf(),
    ensures
        forall|i: int|
            0 <= i < s.projects@.len() ==> (#[trigger] s.projects@[i]).id < s.ids.next_id,
        forall|i: int, j: int|
            #![trigger s.projects@[i], s.projects@[j]]
            0 <= i < j < s.projects@.len() ==> s.projects@[i].id != s.projects@[j].id,
{
}

/// NFT identifiers are unique and never reused, for the same reason (see
/// `mint_nft`: the identifier returned is the counter, which then
/// strictly increases).
pub proof fn lemma_nft_ids_unique_and_fresh(m: Marketplace)
    requires
        m.wf(),
    ensures
        forall|i: int| 0 <= i < m.nfts@.len() ==> (#[trigger] m.nfts@[i]).id < m.ids.next_id,
        forall|i: int, j: int|
            #![trigger m.nfts@[i], m.nfts@[j]]
            0 <= i < j < m.nfts@.len() ==> m.nfts@[i].id != m.nfts@[j].id,
{
}

/// Royalty conservation: what the seller keeps and what the creator is
/// owed add up to the price exactly - the floor of the division loses
/// nothing, the remainder goes to the seller - and the royalty is never
/// negative nor more than the price.
pub proof fn lemma_royalty_conservation(n: NFTMetadata)
    requires
        n.royalty_percentage <= 100,
    ensures
        spec_seller_amount(n) + spec_royalty_amount(n) == n.price as int,
        0 <= spec_royalty_amount(n) <= n.price as int,
        0 <= spec_seller_amount(n) <= n.price as int,
{
    let p = n.price as int;
    let rr = n.royalty_percentage as int;
    if n.creator@ != n.current_owner@ {
        assert(0 <= p * rr && p * rr <= p * 100) by (nonlinear_arith)
            requires
                0 <= p,
                0 <= rr <= 100,
        ;
        assert(p * 100 / 100 == p) by (nonlinear_arith);
        assert(p * rr / 100 >= 0) by (nonlinear_arith)
            requires
                p * rr >= 0,
        ;
        vstd::arithmetic::div_mod::lemma_div_is_ordered(p * rr, p * 100, 100);
    }
}

/// No royalty is owed when the creator is the current owner at the time
/// of the sale.
pub proof fn lemma_no_royalty_for_creator(n: NFTMetadata)
    requires
        n.creator@ == n.current_owner@,
    ensures
        spec_royalty_amount(n) == 0,
{
}

/// Adding a contributor is idempotent: adding an identity a second time
/// - however the second string is spelled into memory - leaves the list
/// exactly as the first add left it.
pub proof fn lemma_add_contributor_idempotent(s: Seq<String>, c: String, d: String)
    requires
        d@ == c@,
    ensures
        add_contributor_model(add_contributor_model(s, c), d) == add_contributor_model(s, c),
{
    if contains_ident(s, c@) {
        assert(add_contributor_model(s, c) == s);
    } else {
        let s1 = s.push(c);
        assert(s1[s.len() as int]@ == d@);
        assert(contains_ident(s1, d@));
        assert(add_contributor_model(s1, d) == s1);
    }
}

} // verus!
