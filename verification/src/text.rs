//! Rendering of numbers and of the fixed confirmation messages, verified
//! against character-sequence specifications.

use vstd::prelude::*;
use vstd::string::StringExecFns;

verus! {

/// The decimal digit character for a value below ten.
pub open spec fn dec_digit(d: int) -> char {
    if d == 0 {
        '0'
    } else if d == 1 {
        '1'
    } else if d == 2 {
        '2'
    } else if d == 3 {
        '3'
    } else if d == 4 {
        '4'
    } else if d == 5 {
        '5'
    } else if d == 6 {
        '6'
    } else if d == 7 {
        '7'
    } else if d == 8 {
        '8'
    } else {
        '9'
    }
}

/// The decimal rendering of `n`, most significant digit first, with no
/// leading zero except for `n == 0` itself.
pub open spec fn dec_digits(n: nat) -> Seq<char>
    decreases n,
{
    if n < 10 {
        seq![dec_digit(n as int)]
    } else {
        dec_digits(n / 10) + seq![dec_digit((n % 10) as int)]
    }
}

/// The one-character string for a single decimal digit.
fn digit_str(d: u64) -> (r: &'static str)
    requires
        d < 10,
    ensures
        r@ == seq![dec_digit(d as int)],
{
    let r: &'static str = match d {
        0 => "0",
        1 => "1",
        2 => "2",
        3 => "3",
        4 => "4",
        5 => "5",
        6 => "6",
        7 => "7",
        8 => "8",
        _ => "9",
    };
    proof {
        reveal_strlit("0");
        reveal_strlit("1");
        reveal_strlit("2");
        reveal_strlit("3");
        reveal_strlit("4");
        reveal_strlit("5");
        reveal_strlit("6");
        reveal_strlit("7");
        reveal_strlit("8");
        reveal_strlit("9");
        assert(r@ =~= seq![dec_digit(d as int)]);
    }
    r
}

/// Append the decimal rendering of `n` to `s`.
fn push_dec_digits(s: &mut String, n: u64)
    ensures
        final(s)@ == old(s)@ + dec_digits(n as nat),
    decreases n,
{
    if n < 10 {
        s.append(digit_str(n));
        proof {
            assert(s@ =~= old(s)@ + dec_digits(n as nat));
        }
    } else {
        push_dec_digits(s, n / 10);
        s.append(digit_str(n % 10));
        proof {
            assert((n as nat) / 10 == (n / 10) as nat);
            assert((n as nat) % 10 == (n % 10) as nat);
            assert(s@ =~= old(s)@ + dec_digits(n as nat));
        }
    }
}

/// The decimal rendering of `n` as an owned string.
pub fn u64_to_dec(n: u64) -> (s: String)
    ensures
        s@ == dec_digits(n as nat),
{
    let mut s = String::new();
    push_dec_digits(&mut s, n);
    proof {
        assert(s@ =~= dec_digits(n as nat));
    }
    s
}

/// The confirmation a successful purchase returns.
pub open spec fn buy_message_view(seller_amount: nat, royalty_amount: nat) -> Seq<char> {
    "NFT purchased successfully. Seller receives: "@ + dec_digits(seller_amount)
        + " ICP, Creator royalty: "@ + dec_digits(royalty_amount) + " ICP"@
}

/// Render the purchase confirmation for the two amounts of a sale.
pub fn buy_message(seller_amount: u64, royalty_amount: u64) -> (r: String)
    ensures
        r@ == buy_message_view(seller_amount as nat, royalty_amount as nat),
{
    let mut s = String::from_str("NFT purchased successfully. Seller receives: ");
    push_dec_digits(&mut s, seller_amount);
    s.append(" ICP, Creator royalty: ");
    push_dec_digits(&mut s, royalty_amount);
    s.append(" ICP");
    proof {
        assert(s@ =~= buy_message_view(seller_amount as nat, royalty_amount as nat));
    }
    s
}

/// The confirmation a successful price update returns.
pub open spec fn price_update_message_view(old_price: nat, new_price: nat) -> Seq<char> {
    "Price updated from "@ + dec_digits(old_price) + " to "@ + dec_digits(new_price) + " ICP"@
}

/// Render the price-update confirmation.
pub fn price_update_message(old_price: u64, new_price: u64) -> (r: String)
    ensures
        r@ == price_update_message_view(old_price as nat, new_price as nat),
{
    let mut s = String::from_str("Price updated from ");
    push_dec_digits(&mut s, old_price);
    s.append(" to ");
    push_dec_digits(&mut s, new_price);
    s.append(" ICP");
    proof {
        assert(s@ =~= price_update_message_view(old_price as nat, new_price as nat));
    }
    s
}

/// The derived identifier a royalty payment carries: the NFT identifier
/// and the sale timestamp joined by an underscore.
pub open spec fn transaction_id_view(nft_id: nat, timestamp: nat) -> Seq<char> {
    dec_digits(nft_id) + "_"@ + dec_digits(timestamp)
}

/// Render the derived royalty-payment identifier.
pub fn transaction_id_string(nft_id: u64, timestamp: u64) -> (r: String)
    ensures
        r@ == transaction_id_view(nft_id as nat, timestamp as nat),
{
    let mut s = u64_to_dec(nft_id);
    s.append("_");
    push_dec_digits(&mut s, timestamp);
    proof {
        assert(s@ =~= transaction_id_view(nft_id as nat, timestamp as nat));
    }
    s
}

} // verus!
