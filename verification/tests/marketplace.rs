use music_collab::market::Marketplace;
use music_collab::types::{MarketError, TransactionKind};

fn mint_sample(m: &mut Marketplace, creator: &str, price: u64, ts: u64) -> u64 {
    m.mint_nft(
        String::from("Song"),
        String::from("A song token"),
        String::from("https://img.example/1.png"),
        String::from(creator),
        1,
        price,
        String::from("audio"),
        ts,
    )
}

#[test]
fn mint_sets_up_the_record_and_logs_the_mint() {
    let mut m = Marketplace::new();
    let id = mint_sample(&mut m, "alice", 100, 5);
    assert_eq!(id, 1);
    let n = m.get_nft(1).unwrap();
    assert_eq!(n.id, 1);
    assert_eq!(n.creator, "alice");
    assert_eq!(n.current_owner, "alice");
    assert_eq!(n.price, 100);
    assert!(n.is_for_sale);
    assert_eq!(n.royalty_percentage, 10);
    assert_eq!(n.created_at, 5);
    assert_eq!(n.sale_history.len(), 1);
    assert_eq!(n.sale_history[0].from, "system");
    assert_eq!(n.sale_history[0].to, "alice");
    assert_eq!(n.sale_history[0].price, 0);
    assert_eq!(n.sale_history[0].kind, TransactionKind::Mint);
    assert_eq!(m.transactions.len(), 1);
    assert_eq!(m.transactions[0].kind, TransactionKind::Mint);
    let second = mint_sample(&mut m, "bob", 10, 6);
    assert_eq!(second, 2);
}

#[test]
fn buy_splits_the_price_between_seller_and_creator() {
    let mut m = Marketplace::new();
    let id = mint_sample(&mut m, "alice", 100, 5);

    // First sale: the seller is the creator, so no royalty is owed.
    let msg = m.buy_nft(id, String::from("bob"), 10).unwrap();
    assert_eq!(
        msg,
        "NFT purchased successfully. Seller receives: 100 ICP, Creator royalty: 0 ICP"
    );
    assert_eq!(m.royalty_payments.len(), 0);

    // Second sale: bob is not the creator, so alice earns the 10% cut.
    let msg = m.buy_nft(id, String::from("carol"), 20).unwrap();
    assert_eq!(
        msg,
        "NFT purchased successfully. Seller receives: 90 ICP, Creator royalty: 10 ICP"
    );
    let n = m.get_nft(id).unwrap();
    assert_eq!(n.current_owner, "carol");
    assert!(n.is_for_sale);
    assert_eq!(n.sale_history.len(), 3);
    assert_eq!(n.sale_history[2].from, "bob");
    assert_eq!(n.sale_history[2].to, "carol");
    assert_eq!(n.sale_history[2].price, 100);
    assert_eq!(n.sale_history[2].kind, TransactionKind::Sale);
    assert_eq!(m.transactions.len(), 3);
    assert_eq!(m.royalty_payments.len(), 1);
    assert_eq!(m.royalty_payments[0].recipient, "alice");
    assert_eq!(m.royalty_payments[0].amount, 10);
    assert_eq!(m.royalty_payments[0].nft_id, id);
    assert_eq!(m.royalty_payments[0].transaction_id, "1_20");

    let earnings = m.get_user_royalty_earnings(String::from("alice"));
    assert_eq!(earnings.len(), 1);
    assert_eq!(earnings[0].amount, 10);
    assert_eq!(m.get_user_royalty_earnings(String::from("bob")).len(), 0);
}

#[test]
fn royalty_is_floored_and_the_seller_keeps_the_remainder() {
    let mut m = Marketplace::new();
    let id = mint_sample(&mut m, "alice", 99, 5);
    m.buy_nft(id, String::from("bob"), 10).unwrap();
    // 99 * 10 / 100 = 9 (floored); the seller keeps 90.
    let msg = m.buy_nft(id, String::from("carol"), 20).unwrap();
    assert_eq!(
        msg,
        "NFT purchased successfully. Seller receives: 90 ICP, Creator royalty: 9 ICP"
    );
    assert_eq!(m.royalty_payments[0].amount, 9);
}

#[test]
fn a_royalty_below_one_unit_is_not_logged() {
    let mut m = Marketplace::new();
    let id = mint_sample(&mut m, "alice", 5, 5);
    m.buy_nft(id, String::from("bob"), 10).unwrap();
    // 5 * 10 / 100 floors to 0: the seller keeps everything and no
    // royalty payment is recorded.
    let msg = m.buy_nft(id, String::from("carol"), 20).unwrap();
    assert_eq!(
        msg,
        "NFT purchased successfully. Seller receives: 5 ICP, Creator royalty: 0 ICP"
    );
    assert_eq!(m.royalty_payments.len(), 0);
}

#[test]
fn an_updated_price_drives_the_next_sale() {
    let mut m = Marketplace::new();
    let id = mint_sample(&mut m, "alice", 100, 5);
    m.buy_nft(id, String::from("bob"), 10).unwrap();
    m.update_nft_price(id, 40, String::from("bob")).unwrap();
    let msg = m.buy_nft(id, String::from("carol"), 20).unwrap();
    assert_eq!(
        msg,
        "NFT purchased successfully. Seller receives: 36 ICP, Creator royalty: 4 ICP"
    );
    assert_eq!(m.get_marketplace_stats(), (1, 1, 2, 140));
}

#[test]
fn buy_when_not_for_sale_is_refused_and_changes_nothing() {
    let mut m = Marketplace::new();
    let id = mint_sample(&mut m, "alice", 100, 5);
    let ok = m.set_nft_for_sale(id, false, String::from("alice")).unwrap();
    assert_eq!(ok, "NFT removed from sale");
    let r = m.buy_nft(id, String::from("bob"), 10);
    assert_eq!(r.unwrap_err(), MarketError::NotForSale);
    let n = &m.nfts[0];
    assert_eq!(n.current_owner, "alice");
    assert_eq!(n.sale_history.len(), 1);
    assert_eq!(m.transactions.len(), 1);
    assert_eq!(m.royalty_payments.len(), 0);
}

#[test]
fn buying_your_own_nft_is_refused_and_changes_nothing() {
    let mut m = Marketplace::new();
    let id = mint_sample(&mut m, "alice", 100, 5);
    let r = m.buy_nft(id, String::from("alice"), 10);
    assert_eq!(r.unwrap_err(), MarketError::SelfPurchase);
    let n = &m.nfts[0];
    assert_eq!(n.current_owner, "alice");
    assert_eq!(n.sale_history.len(), 1);
    assert_eq!(m.transactions.len(), 1);
}

#[test]
fn buying_an_unknown_nft_is_refused() {
    let mut m = Marketplace::new();
    let r = m.buy_nft(99, String::from("bob"), 10);
    assert_eq!(r.unwrap_err(), MarketError::NotFound);
}

#[test]
fn update_price_needs_the_owner() {
    let mut m = Marketplace::new();
    let id = mint_sample(&mut m, "alice", 100, 5);
    let msg = m.update_nft_price(id, 250, String::from("alice")).unwrap();
    assert_eq!(msg, "Price updated from 100 to 250 ICP");
    assert_eq!(m.nfts[0].price, 250);
    let r = m.update_nft_price(id, 1, String::from("mallory"));
    assert_eq!(r.unwrap_err(), MarketError::NotOwner);
    assert_eq!(m.nfts[0].price, 250);
    let r = m.update_nft_price(42, 1, String::from("alice"));
    assert_eq!(r.unwrap_err(), MarketError::NotFound);
}

#[test]
fn set_for_sale_needs_the_owner() {
    let mut m = Marketplace::new();
    let id = mint_sample(&mut m, "alice", 100, 5);
    let r = m.set_nft_for_sale(id, false, String::from("mallory"));
    assert_eq!(r.unwrap_err(), MarketError::NotOwner);
    assert!(m.nfts[0].is_for_sale);
    let msg = m.set_nft_for_sale(id, false, String::from("alice")).unwrap();
    assert_eq!(msg, "NFT removed from sale");
    assert!(!m.nfts[0].is_for_sale);
    let msg = m.set_nft_for_sale(id, true, String::from("alice")).unwrap();
    assert_eq!(msg, "NFT is now for sale");
    assert!(m.nfts[0].is_for_sale);
    let r = m.set_nft_for_sale(42, true, String::from("alice"));
    assert_eq!(r.unwrap_err(), MarketError::NotFound);
}

#[test]
fn get_counts_views_and_list_does_not() {
    let mut m = Marketplace::new();
    let id = mint_sample(&mut m, "alice", 100, 5);
    let n = m.get_nft(id).unwrap();
    assert_eq!(n.view_count, 1);
    let n = m.get_nft(id).unwrap();
    assert_eq!(n.view_count, 2);
    let all = m.list_nfts();
    assert_eq!(all.len(), 1);
    assert_eq!(all[0].view_count, 2);
    let n = m.get_nft(id).unwrap();
    assert_eq!(n.view_count, 3);
    assert!(m.get_nft(99).is_none());
    assert_eq!(m.nfts[0].view_count, 3);
}

#[test]
fn transactions_for_an_nft_are_its_own_history() {
    let mut m = Marketplace::new();
    let id = mint_sample(&mut m, "alice", 100, 5);
    m.buy_nft(id, String::from("bob"), 10).unwrap();
    let history = m.get_nft_transactions(id);
    assert_eq!(history.len(), 2);
    assert_eq!(history[0].kind, TransactionKind::Mint);
    assert_eq!(history[1].kind, TransactionKind::Sale);
    assert_eq!(history[1].from, "alice");
    assert_eq!(history[1].to, "bob");
    assert_eq!(m.get_nft_transactions(99).len(), 0);
}

#[test]
fn holdings_and_creations_filter_by_user() {
    let mut m = Marketplace::new();
    let a = mint_sample(&mut m, "alice", 100, 5);
    let b = mint_sample(&mut m, "bob", 50, 6);
    m.buy_nft(a, String::from("bob"), 10).unwrap();
    let bobs = m.get_user_nfts(String::from("bob"));
    assert_eq!(bobs.len(), 2);
    assert_eq!(bobs[0].id, a);
    assert_eq!(bobs[1].id, b);
    assert_eq!(m.get_user_nfts(String::from("alice")).len(), 0);
    let created = m.get_user_created_nfts(String::from("alice"));
    assert_eq!(created.len(), 1);
    assert_eq!(created[0].id, a);
    assert_eq!(m.get_user_created_nfts(String::from("carol")).len(), 0);
}

#[test]
fn stats_count_only_sales() {
    let mut m = Marketplace::new();
    assert_eq!(m.get_marketplace_stats(), (0, 0, 0, 0));
    let id = mint_sample(&mut m, "alice", 100, 5);
    // The mint transaction is logged but is not a sale.
    assert_eq!(m.get_marketplace_stats(), (1, 1, 0, 0));
    m.buy_nft(id, String::from("bob"), 10).unwrap();
    m.buy_nft(id, String::from("carol"), 20).unwrap();
    assert_eq!(m.get_marketplace_stats(), (1, 1, 2, 200));
    m.set_nft_for_sale(id, false, String::from("carol")).unwrap();
    assert_eq!(m.get_marketplace_stats(), (1, 0, 2, 200));
}

#[test]
fn error_messages_are_fixed() {
    assert_eq!(MarketError::NotFound.message(), "NFT not found");
    assert_eq!(MarketError::NotForSale.message(), "NFT is not for sale");
    assert_eq!(MarketError::SelfPurchase.message(), "Cannot buy your own NFT");
    assert_eq!(
        MarketError::NotOwner.message(),
        "Only the owner can perform this action"
    );
}
