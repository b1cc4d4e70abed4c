//! Byte and text forms. Amounts and transfer receipts travel between chains
//! as canonical bytes, which the `bcs` crate writes and reads; this module
//! says what those bytes are, and holds the few text helpers the sagas need.

use crate::types::{ChainId, TokenId};
use vstd::bytes::{spec_u128_from_le_bytes, spec_u128_to_le_bytes, spec_u64_to_le_bytes};
use vstd::prelude::*;

verus! {

/// The longest sequence that the canonical byte form accepts.
pub const MAX_SEQUENCE_LENGTH: usize = 0x7fff_ffff;

/// The bytes of a chain's identifier: its four words, each in little-endian
/// order.
pub open spec fn chain_bytes(chain: ChainId) -> Seq<u8> {
    spec_u64_to_le_bytes(chain.w0) + spec_u64_to_le_bytes(chain.w1) + spec_u64_to_le_bytes(
        chain.w2,
    ) + spec_u64_to_le_bytes(chain.w3)
}

/// A length in base 128, lowest digit first, each byte but the last with its
/// top bit set.
pub open spec fn uleb128(n: nat) -> Seq<u8>
    decreases n,
{
    if n < 128 {
        seq![n as u8]
    } else {
        seq![((n % 128) + 128) as u8] + uleb128(n / 128)
    }
}

/// The canonical bytes of a transfer's receipt: the sender, the receiver, the
/// token's minting chain and index, and the payload behind its length.
pub open spec fn receipt_bytes(from: ChainId, to: ChainId, token_id: TokenId, data: Seq<u8>) -> Seq<
    u8,
> {
    chain_bytes(from) + chain_bytes(to) + chain_bytes(token_id.minted_chain)
        + spec_u64_to_le_bytes(token_id.index) + uleb128(data.len()) + data
}

/// The receipt of a transfer, where it can be written: a payload longer than
/// `MAX_SEQUENCE_LENGTH` has none.
pub open spec fn spec_receipt(from: ChainId, to: ChainId, token_id: TokenId, data: Seq<u8>) -> Option<
    Seq<u8>,
> {
    if data.len() <= MAX_SEQUENCE_LENGTH {
        Some(receipt_bytes(from, to, token_id, data))
    } else {
        None
    }
}

/// The amount that a payload holds: sixteen bytes, read as a little-endian
/// integer. A payload of another length holds none.
pub open spec fn spec_amount_from_bytes(data: Seq<u8>) -> Option<u128> {
    if data.len() == 16 {
        Some(spec_u128_from_le_bytes(data))
    } else {
        None
    }
}

/// The bytes of an optional byte vector.
pub open spec fn spec_bytes_of(bytes: Option<Vec<u8>>) -> Option<Seq<u8>> {
    match bytes {
        Some(b) => Some(b@),
        None => None,
    }
}

/// Whether `pattern` stands in `text` from position `i` on.
pub open spec fn occurs_at(text: Seq<char>, pattern: Seq<char>, i: int) -> bool {
    0 <= i && i + pattern.len() <= text.len() && text.subrange(i, i + pattern.len()) == pattern
}

/// Whether `pattern` stands somewhere in `text`.
pub open spec fn contains_text(text: Seq<char>, pattern: Seq<char>) -> bool {
    exists|i: int| occurs_at(text, pattern, i)
}

/// The character of one decimal digit.
pub open spec fn digit_char(d: nat) -> char {
    if d == 0 {
        '0'
    } else if d == 1 {
        '1'
    } else if d == 2 {
        '2'
    } else if d == 3 {
        '3'
    } else if d == 4 {
        '4'
    } else if d == 5 {
        '5'
    } else if d == 6 {
        '6'
    } else if d == 7 {
        '7'
    } else if d == 8 {
        '8'
    } else {
        '9'
    }
}

/// A number written in decimal, without leading zeros.
pub open spec fn decimal_digits(n: nat) -> Seq<char>
    decreases n,
{
    if n < 10 {
        seq![digit_char(n)]
    } else {
        decimal_digits(n / 10).push(digit_char(n % 10))
    }
}

/// `bcs::to_bytes` on a 128-bit integer. The crate writes such an integer as
/// its sixteen little-endian bytes into a fresh vector, which cannot fail.
#[verifier::external_body]
pub(crate) fn amount_to_bytes(attos: u128) -> (r: Option<Vec<u8>>)
    ensures
        spec_bytes_of(r) == Some(spec_u128_to_le_bytes(attos)),
{
    bcs::to_bytes(&attos).ok()
}

/// `bcs::from_bytes` for a 128-bit integer. The crate reads sixteen bytes as a
/// little-endian integer, fails where fewer are there, and fails where any
/// are left over.
#[verifier::external_body]
pub(crate) fn amount_from_bytes(data: &Vec<u8>) -> (r: Option<u128>)
    ensures
        r == spec_amount_from_bytes(data@),
{
    bcs::from_bytes::<u128>(data).ok()
}

/// `bcs::to_bytes` on the four parts of a transfer's receipt, handed over as
/// tuples of integers and a byte vector. The crate writes a tuple as its parts
/// one after another, an integer in little-endian order, and a vector as its
/// length in base 128 followed by its items; it refuses a vector longer than
/// `MAX_SEQUENCE_LENGTH`.
#[verifier::external_body]
pub(crate) fn receipt_to_bytes(from: &ChainId, to: &ChainId, token_id: &TokenId, data: &Vec<u8>) -> (r:
    Option<Vec<u8>>)
    ensures
        spec_bytes_of(r) == spec_receipt(*from, *to, *token_id, data@),
{
    let minted = &token_id.minted_chain;
    bcs::to_bytes(
        &(
            (from.w0, from.w1, from.w2, from.w3),
            (to.w0, to.w1, to.w2, to.w3),
            ((minted.w0, minted.w1, minted.w2, minted.w3), token_id.index),
            data,
        ),
    ).ok()
}

/// `str::contains` with a string as the pattern: whether the pattern matches
/// a part of the text.
#[verifier::external_body]
pub(crate) fn text_contains(text: &str, pattern: &str) -> (r: bool)
    ensures
        r == contains_text(text@, pattern@),
{
    text.contains(pattern)
}

/// `to_string` of an unsigned integer: its decimal digits.
#[verifier::external_body]
pub(crate) fn decimal_text(n: usize) -> (r: String)
    ensures
        r@ == decimal_digits(n as nat),
{
    n.to_string()
}

/// Whether two byte vectors hold the same bytes.
pub fn same_bytes(a: &Vec<u8>, b: &Vec<u8>) -> (r: bool)
    ensures
        r == (a@ == b@),
{
    if a.len() != b.len() {
        return false;
    }
    let mut i: usize = 0;
    while i < a.len()
        invariant
            i <= a.len(),
            a.len() == b.len(),
            forall|j: int| 0 <= j < i ==> a[j] == b[j],
        decreases a.len() - i,
    {
        if a[i] != b[i] {
            return false;
        }
        i += 1;
    }
    assert(a@ =~= b@);
    true
}

} // verus!
