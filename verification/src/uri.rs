//! The canonical URI of a post: `https://{domain}/ap/post/{id}`, with the
//! identifier in hyphenated lowercase-hex UUID form. Derived once at
//! creation and immutable thereafter.

use vstd::prelude::*;
use vstd::string::StringExecFns;

verus! {

/// The lowercase hexadecimal digit for a value in 0..16.
pub open spec fn hex_digit(n: int) -> char {
    if n == 0 {
        '0'
    } else if n == 1 {
        '1'
    } else if n == 2 {
        '2'
    } else if n == 3 {
        '3'
    } else if n == 4 {
        '4'
    } else if n == 5 {
        '5'
    } else if n == 6 {
        '6'
    } else if n == 7 {
        '7'
    } else if n == 8 {
        '8'
    } else if n == 9 {
        '9'
    } else if n == 10 {
        'a'
    } else if n == 11 {
        'b'
    } else if n == 12 {
        'c'
    } else if n == 13 {
        'd'
    } else if n == 14 {
        'e'
    } else {
        'f'
    }
}

/// The lowest `n` hexadecimal digits of `x`, most significant first.
pub open spec fn hex_be(x: int, n: nat) -> Seq<char>
    decreases n,
{
    if n == 0 {
        Seq::empty()
    } else {
        hex_be(x / 16, (n - 1) as nat).push(hex_digit(x % 16))
    }
}

/// The hyphenated lowercase-hex form of a 128-bit identifier: 32 hex
/// digits in big-endian order, grouped 8-4-4-4-12.
pub open spec fn uuid_chars(id: u128) -> Seq<char> {
    let h = hex_be(id as int, 32);
    h.subrange(0, 8) + seq!['-'] + h.subrange(8, 12) + seq!['-'] + h.subrange(12, 16)
        + seq!['-'] + h.subrange(16, 20) + seq!['-'] + h.subrange(20, 32)
}

/// The canonical URI of the post with the given identifier on the given
/// domain.
pub open spec fn canonical_uri(domain: Seq<char>, id: u128) -> Seq<char> {
    "https://"@ + domain + "/ap/post/"@ + uuid_chars(id)
}

/// Relies on uuid::Uuid::from_u128 and uuid::Uuid's Display impl: the
/// identifier's bytes in big-endian order, printed as hyphenated
/// lowercase hex in the 8-4-4-4-12 grouping.
#[verifier::external_body]
fn uuid_hyphenated(id: u128) -> (r: String)
    ensures
        r@ == uuid_chars(id),
{
    format!("{}", uuid::Uuid::from_u128(id))
}

/// Renders the canonical URI of a post.
pub fn post_uri(domain: &str, id: u128) -> (r: String)
    ensures
        r@ == canonical_uri(domain@, id),
{
    let mut s = String::from_str("https://");
    s.append(domain);
    s.append("/ap/post/");
    let h = uuid_hyphenated(id);
    s.append(h.as_str());
    proof {
        assert(s@ =~= canonical_uri(domain@, id));
    }
    s
}

} // verus!
