//! The plain data of the marketplace: chains, amounts, tokens and streams.

use crate::table::Key;
use vstd::prelude::*;

verus! {

/// Marker for the application's interface: which operations, messages and
/// parameters it speaks.
#[derive(Clone, Copy, Debug, PartialEq, Eq, PartialOrd, Ord, Hash)]
pub struct AqueductAbi;

/// The identifier of a chain: a 256-bit hash, held as four words. The bytes of
/// the hash are the little-endian bytes of the words, first word first.
#[derive(Clone, Copy, Debug, PartialEq, Eq, Hash, Structural)]
pub struct ChainId {
    pub w0: u64,
    pub w1: u64,
    pub w2: u64,
    pub w3: u64,
}

impl ChainId {
    pub fn new(w0: u64, w1: u64, w2: u64, w3: u64) -> (r: ChainId)
        ensures
            r == (ChainId { w0, w1, w2, w3 }),
    {
        ChainId { w0, w1, w2, w3 }
    }
}

impl View for ChainId {
    type V = ChainId;

    open spec fn view(&self) -> ChainId {
        *self
    }
}

/// A 256-bit hash, held as four words in the way of a chain's identifier.
#[derive(Clone, Copy, Debug, PartialEq, Eq, Hash, Structural)]
pub struct CryptoHash {
    pub w0: u64,
    pub w1: u64,
    pub w2: u64,
    pub w3: u64,
}

/// A quantity of funds, counted in the smallest unit. It cannot be negative.
#[derive(Clone, Copy, Debug, PartialEq, Eq, Hash, Structural)]
pub struct Amount(pub u128);

impl View for Amount {
    type V = Amount;

    open spec fn view(&self) -> Amount {
        *self
    }
}

impl Amount {
    /// The sum, held at the largest amount where it would pass it.
    pub open spec fn spec_saturating_add(self, other: Amount) -> Amount {
        if self.0 + other.0 > u128::MAX {
            Amount(u128::MAX)
        } else {
            Amount((self.0 + other.0) as u128)
        }
    }

    /// The difference, where `other` does not exceed `self`.
    pub open spec fn spec_try_sub(self, other: Amount) -> Option<Amount> {
        if other.0 <= self.0 {
            Some(Amount((self.0 - other.0) as u128))
        } else {
            None
        }
    }

    pub fn zero() -> (r: Amount)
        ensures
            r == Amount(0),
    {
        Amount(0)
    }

    pub fn from_attos(attos: u128) -> (r: Amount)
        ensures
            r == Amount(attos),
    {
        Amount(attos)
    }

    pub fn attos(&self) -> (r: u128)
        ensures
            r == self.0,
    {
        self.0
    }

    pub fn saturating_add(self, other: Amount) -> (r: Amount)
        ensures
            r == self.spec_saturating_add(other),
    {
        Amount(self.0.saturating_add(other.0))
    }

    pub fn try_sub(self, other: Amount) -> (r: Option<Amount>)
        ensures
            r == self.spec_try_sub(other),
    {
        match self.0.checked_sub(other.0) {
            Some(rest) => Some(Amount(rest)),
            None => None,
        }
    }
}

/// The identity of a token: the chain that minted it and the count of tokens
/// that chain had minted before.
#[derive(Clone, Copy, Debug, PartialEq, Eq, Hash, Structural)]
pub struct TokenId {
    pub minted_chain: ChainId,
    pub index: u64,
}

impl View for TokenId {
    type V = TokenId;

    open spec fn view(&self) -> TokenId {
        *self
    }
}

impl Key for TokenId {
    fn same_key(&self, other: &TokenId) -> (r: bool) {
        *self == *other
    }

    fn clone_key(&self) -> (r: TokenId) {
        *self
    }
}

/// What a token says of itself. `image` holds the text form of the stream that
/// the token stands for.
#[derive(Debug, PartialEq, Eq)]
pub struct TokenMetadata {
    pub name: String,
    pub description: String,
    pub image: String,
}

pub struct TokenMetadataView {
    pub name: Seq<char>,
    pub description: Seq<char>,
    pub image: Seq<char>,
}

impl View for TokenMetadata {
    type V = TokenMetadataView;

    open spec fn view(&self) -> TokenMetadataView {
        TokenMetadataView {
            name: self.name@,
            description: self.description@,
            image: self.image@,
        }
    }
}

impl Clone for TokenMetadata {
    fn clone(&self) -> (r: TokenMetadata)
        ensures
            r@ == self@,
    {
        TokenMetadata {
            name: self.name.clone(),
            description: self.description.clone(),
            image: self.image.clone(),
        }
    }
}

impl TokenMetadata {
    /// Metadata whose three texts are empty.
    pub open spec fn spec_blank() -> TokenMetadataView {
        TokenMetadataView { name: Seq::empty(), description: Seq::empty(), image: Seq::empty() }
    }

    pub fn blank() -> (r: TokenMetadata)
        ensures
            r@ == Self::spec_blank(),
    {
        TokenMetadata { name: String::new(), description: String::new(), image: String::new() }
    }

    pub fn same(&self, other: &TokenMetadata) -> (r: bool)
        ensures
            r == (self@ == other@),
    {
        self.name == other.name && self.description == other.description && self.image
            == other.image
    }
}

/// A token: its identity and its metadata.
#[derive(Debug, PartialEq, Eq)]
pub struct Token {
    pub id: TokenId,
    pub metadata: TokenMetadata,
}

pub struct TokenView {
    pub id: TokenId,
    pub metadata: TokenMetadataView,
}

impl View for Token {
    type V = TokenView;

    open spec fn view(&self) -> TokenView {
        TokenView { id: self.id, metadata: self.metadata@ }
    }
}

impl Clone for Token {
    fn clone(&self) -> (r: Token)
        ensures
            r@ == self@,
    {
        Token { id: self.id, metadata: self.metadata.clone() }
    }
}

impl Token {
    /// The token that stands in where a chain is asked for one it does not
    /// hold: the chain's own first identity with blank metadata.
    pub open spec fn spec_stand_in(chain: ChainId) -> TokenView {
        TokenView {
            id: TokenId { minted_chain: chain, index: 0 },
            metadata: TokenMetadata::spec_blank(),
        }
    }

    pub fn stand_in(chain: ChainId) -> (r: Token)
        ensures
            r@ == Self::spec_stand_in(chain),
    {
        Token { id: TokenId { minted_chain: chain, index: 0 }, metadata: TokenMetadata::blank() }
    }

    pub fn same(&self, other: &Token) -> (r: bool)
        ensures
            r == (self@ == other@),
    {
        self.id == other.id && self.metadata.same(&other.metadata)
    }
}

/// What the application is set up with.
#[derive(Debug, PartialEq, Eq)]
pub struct Parameter {
    pub logger_application_id: String,
}

/// One piece of a stream's accrual curve. `period` and `milestone` are times in
/// microseconds; `constant`, `factor` and `exponent` are fixed-point numbers in
/// which 10^18 stands for one.
#[derive(Clone, Copy, Debug, PartialEq, Eq, Structural)]
pub struct Segment {
    pub period: u64,
    pub constant: i64,
    pub factor: i64,
    pub exponent: i64,
    pub milestone: u64,
}

/// The identity of a stream: the chain of the company that minted it, and a
/// text that is unique on that chain.
#[derive(Debug, PartialEq, Eq)]
pub struct StreamId {
    pub company: ChainId,
    pub id: String,
}

pub struct StreamIdView {
    pub company: ChainId,
    pub id: Seq<char>,
}

impl View for StreamId {
    type V = StreamIdView;

    open spec fn view(&self) -> StreamIdView {
        StreamIdView { company: self.company, id: self.id@ }
    }
}

impl Clone for StreamId {
    fn clone(&self) -> (r: StreamId)
        ensures
            r@ == self@,
    {
        StreamId { company: self.company, id: self.id.clone() }
    }
}

impl Key for StreamId {
    fn same_key(&self, other: &StreamId) -> (r: bool) {
        self.company == other.company && self.id == other.id
    }

    fn clone_key(&self) -> (r: StreamId) {
        StreamId { company: self.company, id: self.id.clone() }
    }
}

impl StreamId {
    pub fn same(&self, other: &StreamId) -> (r: bool)
        ensures
            r == (self@ == other@),
    {
        self.company == other.company && self.id == other.id
    }
}

/// A scheduled payout. `milestones_received` and `periods_received` are the
/// cursor into the schedule: how many segments are wholly paid out, and how
/// many periods of the segment that is under way.
#[derive(Debug, PartialEq, Eq)]
pub struct Stream {
    pub keywords: Vec<String>,
    pub segments: Vec<Segment>,
    pub created: u64,
    pub milestones_received: u64,
    pub periods_received: u64,
}

pub struct StreamView {
    pub keywords: Seq<Seq<char>>,
    pub segments: Seq<Segment>,
    pub created: u64,
    pub milestones_received: u64,
    pub periods_received: u64,
}

/// The texts of a list of strings.
pub open spec fn texts(strings: Seq<String>) -> Seq<Seq<char>> {
    Seq::new(strings.len(), |i: int| strings[i]@)
}

impl View for Stream {
    type V = StreamView;

    open spec fn view(&self) -> StreamView {
        StreamView {
            keywords: texts(self.keywords@),
            segments: self.segments@,
            created: self.created,
            milestones_received: self.milestones_received,
            periods_received: self.periods_received,
        }
    }
}

/// A copy of a list of strings.
pub fn clone_strings(strings: &Vec<String>) -> (r: Vec<String>)
    ensures
        texts(r@) == texts(strings@),
{
    let mut out: Vec<String> = Vec::new();
    let mut i: usize = 0;
    while i < strings.len()
        invariant
            i <= strings.len(),
            out.len() == i,
            forall|j: int| 0 <= j < i ==> out[j]@ == strings[j]@,
        decreases strings.len() - i,
    {
        out.push(strings[i].clone());
        i += 1;
    }
    assert(texts(out@) =~= texts(strings@));
    out
}

/// A copy of a list of segments.
pub fn clone_segments(segments: &Vec<Segment>) -> (r: Vec<Segment>)
    ensures
        r@ == segments@,
{
    let mut out: Vec<Segment> = Vec::new();
    let mut i: usize = 0;
    while i < segments.len()
        invariant
            i <= segments.len(),
            out.len() == i,
            forall|j: int| 0 <= j < i ==> out[j] == segments[j],
        decreases segments.len() - i,
    {
        out.push(segments[i]);
        i += 1;
    }
    assert(out@ =~= segments@);
    out
}

impl Clone for Stream {
    fn clone(&self) -> (r: Stream)
        ensures
            r@ == self@,
    {
        Stream {
            keywords: clone_strings(&self.keywords),
            segments: clone_segments(&self.segments),
            created: self.created,
            milestones_received: self.milestones_received,
            periods_received: self.periods_received,
        }
    }
}

} // verus!
