use music_collab::text::{buy_message, price_update_message, transaction_id_string, u64_to_dec};

#[test]
fn decimal_rendering_is_exact() {
    assert_eq!(u64_to_dec(0), "0");
    assert_eq!(u64_to_dec(7), "7");
    assert_eq!(u64_to_dec(10), "10");
    assert_eq!(u64_to_dec(100), "100");
    assert_eq!(u64_to_dec(90210), "90210");
    assert_eq!(u64_to_dec(u64::MAX), "18446744073709551615");
}

#[test]
fn messages_spell_the_amounts() {
    assert_eq!(
        buy_message(90, 10),
        "NFT purchased successfully. Seller receives: 90 ICP, Creator royalty: 10 ICP"
    );
    assert_eq!(
        price_update_message(100, 250),
        "Price updated from 100 to 250 ICP"
    );
    assert_eq!(transaction_id_string(1, 20), "1_20");
    assert_eq!(transaction_id_string(12, 0), "12_0");
}
