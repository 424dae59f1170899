//! Text for messages and configuration files: numbers and addresses the way
//! they are commonly written.

use vstd::prelude::*;
use vstd::string::*;

verus! {

/// The digit `digit` as text; anything above nine reads as nine.
pub open spec fn digit_text(digit: int) -> Seq<char> {
    if digit <= 0 {
        "0"@
    } else if digit == 1 {
        "1"@
    } else if digit == 2 {
        "2"@
    } else if digit == 3 {
        "3"@
    } else if digit == 4 {
        "4"@
    } else if digit == 5 {
        "5"@
    } else if digit == 6 {
        "6"@
    } else if digit == 7 {
        "7"@
    } else if digit == 8 {
        "8"@
    } else {
        "9"@
    }
}

/// `number` in decimal, without leading zeros.
pub open spec fn decimal(number: nat) -> Seq<char>
    decreases number,
{
    if number < 10 {
        digit_text(number as int)
    } else {
        decimal(number / 10) + digit_text((number % 10) as int)
    }
}

/// The IPv4 address `address` in dotted decimal.
pub open spec fn dotted(address: Seq<u8>) -> Seq<char> {
    decimal(address[0] as nat) + "."@ + decimal(address[1] as nat) + "."@ + decimal(
        address[2] as nat,
    ) + "."@ + decimal(address[3] as nat)
}

/// The entries of a list of bytes from `from` on, each behind a comma but
/// the first of the list.
pub open spec fn byte_entries(bytes: Seq<u8>, from: int) -> Seq<char>
    decreases bytes.len() - from,
{
    if from < 0 || from >= bytes.len() {
        Seq::empty()
    } else {
        (if from == 0 {
            decimal(bytes[from] as nat)
        } else {
            ", "@ + decimal(bytes[from] as nat)
        }) + byte_entries(bytes, from + 1)
    }
}

/// `bytes` as a list of decimal numbers between square brackets.
pub open spec fn byte_list(bytes: Seq<u8>) -> Seq<char> {
    "["@ + byte_entries(bytes, 0) + "]"@
}

/// The text `std` prints for the IPv6 address with the octets `octets`.
pub uninterp spec fn ipv6_display(octets: Seq<u8>) -> Seq<char>;

fn digit_str(digit: u8) -> (text: &'static str)
    requires
        digit < 10,
    ensures
        text@ == digit_text(digit as int),
{
    if digit == 0 {
        "0"
    } else if digit == 1 {
        "1"
    } else if digit == 2 {
        "2"
    } else if digit == 3 {
        "3"
    } else if digit == 4 {
        "4"
    } else if digit == 5 {
        "5"
    } else if digit == 6 {
        "6"
    } else if digit == 7 {
        "7"
    } else if digit == 8 {
        "8"
    } else {
        "9"
    }
}

/// `text` followed by `number` in decimal.
pub fn append_decimal(text: String, number: u64) -> (longer: String)
    ensures
        longer@ == text@ + decimal(number as nat),
    decreases number,
{
    if number < 10 {
        text.concat(digit_str(number as u8))
    } else {
        let longer = append_decimal(text, number / 10);
        longer.concat(digit_str((number % 10) as u8))
    }
}

/// `text` followed by `address` in dotted decimal.
pub fn append_ipv4(text: String, address: &[u8; 4]) -> (longer: String)
    ensures
        longer@ == text@ + dotted(address@),
{
    let a = append_decimal(text, address[0] as u64).concat(".");
    let b = append_decimal(a, address[1] as u64).concat(".");
    let c = append_decimal(b, address[2] as u64).concat(".");
    append_decimal(c, address[3] as u64)
}

/// `text` followed by `bytes` as a list of decimal numbers between square
/// brackets.
pub fn append_byte_list(text: String, bytes: &[u8]) -> (longer: String)
    ensures
        longer@ == text@ + byte_list(bytes@),
{
    let mut longer = text.concat("[");
    let mut index: usize = 0;
    proof {
        lemma_byte_entries_end(bytes@, bytes@.len() as int);
    }
    while index < bytes.len()
        invariant
            index <= bytes.len(),
            longer@ + byte_entries(bytes@, index as int) == text@ + "["@ + byte_entries(bytes@, 0),
        decreases bytes.len() - index,
    {
        let ghost before = longer@;
        if index > 0 {
            longer = longer.concat(", ");
        }
        longer = append_decimal(longer, bytes[index] as u64);
        assert(longer@ + byte_entries(bytes@, index + 1) =~= before + byte_entries(
            bytes@,
            index as int,
        ));
        index = index + 1;
    }
    assert(byte_entries(bytes@, index as int) =~= Seq::<char>::empty());
    longer.concat("]")
}

proof fn lemma_byte_entries_end(bytes: Seq<u8>, from: int)
    requires
        from >= bytes.len(),
    ensures
        byte_entries(bytes, from) == Seq::<char>::empty(),
{
}

/// `Display` of `core::net::Ipv6Addr`, which writes the address in the
/// compressed form of RFC 5952. The text depends on the octets alone.
#[verifier::external_body]
pub(crate) fn ipv6_text(octets: &[u8; 16]) -> (text: String)
    ensures
        text@ == ipv6_display(octets@),
{
    format!("{}", core::net::Ipv6Addr::from(*octets))
}

} // verus!
