//! The card search: the address of the web page that answers a query.

use vstd::prelude::*;
use vstd::string::*;
use vstd::utf8::encode_utf8;

verus! {

/// Whether a byte stands for itself in a percent-encoded text: the ASCII
/// letters and digits, and `-`, `.`, `_`, `~`.
pub open spec fn is_unreserved(byte: u8) -> bool {
    ||| 0x30 <= byte <= 0x39
    ||| 0x41 <= byte <= 0x5a
    ||| 0x61 <= byte <= 0x7a
    ||| byte == 0x2d
    ||| byte == 0x2e
    ||| byte == 0x5f
    ||| byte == 0x7e
}

/// The upper-case hexadecimal digit for a value below sixteen.
pub open spec fn hex_digit(value: int) -> char
    recommends
        0 <= value < 16,
{
    "0123456789ABCDEF"@[value]
}

/// One byte, percent-encoded: itself where it is unreserved, else `%` and its
/// two hexadecimal digits.
pub open spec fn percent_encoded_byte(byte: u8) -> Seq<char> {
    if is_unreserved(byte) {
        seq![byte as char]
    } else {
        seq!['%', hex_digit(byte as int / 16), hex_digit(byte as int % 16)]
    }
}

/// A sequence of bytes, percent-encoded byte by byte.
pub open spec fn percent_encoded(bytes: Seq<u8>) -> Seq<char>
    decreases bytes.len(),
{
    if bytes.len() == 0 {
        Seq::empty()
    } else {
        percent_encoded(bytes.drop_last()) + percent_encoded_byte(bytes.last())
    }
}

/// Calls `urlencoding::encode`, which percent-encodes every byte of the UTF-8
/// form of `text` except the unreserved ones. Verus takes this on trust.
#[verifier::external_body]
fn percent_encode(text: &str) -> (encoded: String)
    ensures
        encoded@ == percent_encoded(encode_utf8(text@)),
{
    urlencoding::encode(text).into_owned()
}

/// What is searched for: the query, or everything where the query is empty.
pub open spec fn search_term(query: Seq<char>) -> Seq<char> {
    if query.len() == 0 {
        "*"@
    } else {
        query
    }
}

/// The address of the page of cards that match `query`.
pub open spec fn search_address(query: Seq<char>) -> Seq<char> {
    "https://lore-seeker.cards/card?q="@ + percent_encoded(encode_utf8(search_term(query)))
}

/// The address of the page of cards that match `query`. An empty query asks
/// for every card.
pub fn search_url(query: &str) -> (url: String)
    ensures
        url@ == search_address(query@),
{
    let term = if query.is_empty() {
        "*"
    } else {
        query
    };
    let mut url = String::from_str("https://lore-seeker.cards/card?q=");
    let encoded = percent_encode(term);
    url.append(encoded.as_str());
    url
}

} // verus!
