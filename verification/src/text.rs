//! Text for messages: numbers in decimal and addresses in their usual form.

use vstd::prelude::*;
use crate::ident::Address;

verus! {

/// The character of a decimal digit.
pub open spec fn digit_char(d: nat) -> char {
    if d == 0 {
        '0'
    } else if d == 1 {
        '1'
    } else if d == 2 {
        '2'
    } else if d == 3 {
        '3'
    } else if d == 4 {
        '4'
    } else if d == 5 {
        '5'
    } else if d == 6 {
        '6'
    } else if d == 7 {
        '7'
    } else if d == 8 {
        '8'
    } else {
        '9'
    }
}

/// A number in decimal, without leading zeros.
pub open spec fn decimal_text(n: nat) -> Seq<char>
    decreases n,
{
    if n < 10 {
        seq![digit_char(n)]
    } else {
        decimal_text(n / 10).push(digit_char(n % 10))
    }
}

/// One decimal digit as text.
fn digit(d: u128) -> (text: &'static str)
    requires
        d < 10,
    ensures
        text@ == seq![digit_char(d as nat)],
{
    proof {
        reveal_strlit("0");
        reveal_strlit("1");
        reveal_strlit("2");
        reveal_strlit("3");
        reveal_strlit("4");
        reveal_strlit("5");
        reveal_strlit("6");
        reveal_strlit("7");
        reveal_strlit("8");
        reveal_strlit("9");
    }
    let text = if d == 0 {
        "0"
    } else if d == 1 {
        "1"
    } else if d == 2 {
        "2"
    } else if d == 3 {
        "3"
    } else if d == 4 {
        "4"
    } else if d == 5 {
        "5"
    } else if d == 6 {
        "6"
    } else if d == 7 {
        "7"
    } else if d == 8 {
        "8"
    } else {
        "9"
    };
    assert(text@ =~= seq![digit_char(d as nat)]);
    text
}

/// Writes a number in decimal.
pub fn decimal(n: u128) -> (text: String)
    ensures
        text@ == decimal_text(n as nat),
    decreases n,
{
    if n < 10 {
        String::from_str(digit(n))
    } else {
        let mut text = decimal(n / 10);
        text.append(digit(n % 10));
        assert(text@ =~= decimal_text(n as nat));
        text
    }
}

/// The text of an address as `alloy_primitives` displays it: `0x` and forty
/// hexadecimal digits whose letters are in upper or lower case after the
/// address's checksum.
pub uninterp spec fn checksum_text(bytes: Seq<u8>) -> Seq<char>;

/// Writes an address by `alloy_primitives::Address::to_checksum` without a
/// chain id, which is what the `Display` of that type writes. The text is a
/// function of the twenty bytes alone; nothing more of it is proved here.
#[verifier::external_body]
pub(crate) fn address_text(address: &Address) -> (text: String)
    ensures
        text@ == checksum_text(address.bytes@),
{
    alloy_primitives::Address::from(address.bytes).to_checksum(None)
}

} // verus!
