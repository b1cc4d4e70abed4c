//! A chain's ledger: the streams it minted, the listings it offers, the
//! owners it records for the tokens it minted, the tokens it holds, and its
//! balance. The functions here are the local actions of which the sagas'
//! hops are made.

use crate::codec::{receipt_to_bytes, spec_receipt};
use crate::error::Error;
use crate::table::Table;
use crate::types::{
    Amount, ChainId, Stream, StreamId, StreamIdView, StreamView, Token, TokenId, TokenMetadata,
    TokenMetadataView, TokenView,
};
use vstd::prelude::*;

verus! {

/// The ledger of one chain.
pub struct Aqueduct {
    /// The streams that this chain minted, by their identity.
    pub nfts: Table<StreamId, Stream>,
    /// The price of each token that this chain offers for sale.
    pub listings: Table<TokenId, Amount>,
    /// How many tokens this chain has minted.
    pub number_minted: u64,
    /// For each token that this chain minted, the chain that holds it now.
    pub current_owner_minted: Table<TokenId, ChainId>,
    /// The tokens that this chain holds, by their identity.
    pub owned_tokens: Table<TokenId, TokenMetadata>,
    /// The funds of this chain.
    pub balance: Amount,
}

pub struct AqueductView {
    pub nfts: Map<StreamIdView, StreamView>,
    pub listings: Map<TokenId, Amount>,
    pub number_minted: u64,
    pub current_owner_minted: Map<TokenId, ChainId>,
    pub owned_tokens: Map<TokenId, TokenMetadataView>,
    pub balance: Amount,
}

impl View for Aqueduct {
    type V = AqueductView;

    open spec fn view(&self) -> AqueductView {
        AqueductView {
            nfts: self.nfts@,
            listings: self.listings@,
            number_minted: self.number_minted,
            current_owner_minted: self.current_owner_minted@,
            owned_tokens: self.owned_tokens@,
            balance: self.balance,
        }
    }
}

impl AqueductView {
    /// The ledger of a chain on which nothing has happened yet.
    pub open spec fn empty() -> AqueductView {
        AqueductView {
            nfts: Map::empty(),
            listings: Map::empty(),
            number_minted: 0,
            current_owner_minted: Map::empty(),
            owned_tokens: Map::empty(),
            balance: Amount(0),
        }
    }

    /// The chain that is recorded as holding `token`.
    pub open spec fn get_owner(self, token: TokenId) -> Result<ChainId, Error> {
        if self.current_owner_minted.contains_key(token) {
            Ok(self.current_owner_minted[token])
        } else {
            Err(Error::NoOwnerInMintedError)
        }
    }

    /// The price at which `token` is listed.
    pub open spec fn get_price(self, token: TokenId) -> Result<Amount, Error> {
        if self.listings.contains_key(token) {
            Ok(self.listings[token])
        } else {
            Err(Error::TokenNotListedError)
        }
    }

    /// Whether this chain holds `token`.
    pub open spec fn check_own(self, token: TokenId) -> bool {
        self.owned_tokens.contains_key(token)
    }

    /// The token that the chain finds under `token`: the one it holds, or
    /// else the stand-in of the chain.
    pub open spec fn find_token(self, chain: ChainId, token: TokenId) -> TokenView {
        if self.owned_tokens.contains_key(token) {
            TokenView { id: token, metadata: self.owned_tokens[token] }
        } else {
            Token::spec_stand_in(chain)
        }
    }

    /// The metadata of a token that this chain holds. A token that is not
    /// told apart from the chain's stand-in counts as not held.
    pub open spec fn get_token(self, chain: ChainId, token: TokenId) -> Result<
        TokenMetadataView,
        Error,
    > {
        let found = self.find_token(chain, token);
        if found == Token::spec_stand_in(chain) {
            Err(Error::ThisChainDoesNotOwnThisTokenError)
        } else {
            Ok(found.metadata)
        }
    }

    /// Whether the chain holds exactly this token, metadata included.
    pub open spec fn holds(self, token: TokenView) -> bool {
        self.owned_tokens.contains_key(token.id) && self.owned_tokens[token.id] == token.metadata
    }

    /// The ledger once `token` has left: without the token and without its
    /// listing, where the chain holds exactly that token; unchanged where it
    /// does not.
    pub open spec fn without_token(self, token: TokenView) -> AqueductView {
        if self.holds(token) {
            AqueductView {
                owned_tokens: self.owned_tokens.remove(token.id),
                listings: self.listings.remove(token.id),
                ..self
            }
        } else {
            self
        }
    }

    /// The ledger once the chain has taken in `token`.
    pub open spec fn transfer_to_me(self, token: TokenView) -> AqueductView {
        AqueductView { owned_tokens: self.owned_tokens.insert(token.id, token.metadata), ..self }
    }

    /// The ledger once `new` is recorded as holding `token`.
    pub open spec fn transfer_update_minted(self, token: TokenId, new: ChainId) -> AqueductView {
        AqueductView {
            current_owner_minted: self.current_owner_minted.insert(token, new),
            ..self
        }
    }

    /// The ledger once `amount` is added to the balance.
    pub open spec fn credit(self, amount: Amount) -> AqueductView {
        AqueductView { balance: self.balance.spec_saturating_add(amount), ..self }
    }

    /// The ledger once `amount` is taken from the balance, where the balance
    /// covers it.
    pub open spec fn debit(self, amount: Amount) -> Result<AqueductView, Error> {
        match self.balance.spec_try_sub(amount) {
            Some(rest) => Ok(AqueductView { balance: rest, ..self }),
            None => Err(Error::InsufficientBalanceError),
        }
    }
}

impl Aqueduct {
    /// The ledger of a chain on which nothing has happened yet.
    pub fn new() -> (r: Aqueduct)
        ensures
            r@ == AqueductView::empty(),
    {
        Aqueduct {
            nfts: Table::new(),
            listings: Table::new(),
            number_minted: 0,
            current_owner_minted: Table::new(),
            owned_tokens: Table::new(),
            balance: Amount(0),
        }
    }

    /// The funds of this chain.
    pub fn balance(&self) -> (r: Amount)
        ensures
            r == self@.balance,
    {
        self.balance
    }

    /// The chain recorded as holding `token`; fails where this chain records
    /// none.
    pub fn get_owner(&self, token: TokenId) -> (r: Result<ChainId, Error>)
        ensures
            r == self@.get_owner(token),
    {
        match self.current_owner_minted.get(&token) {
            Some(owner) => Ok(*owner),
            None => Err(Error::NoOwnerInMintedError),
        }
    }

    /// The price at which this chain lists `token_id`; fails where it does
    /// not list it.
    pub fn get_price(&self, token_id: TokenId) -> (r: Result<Amount, Error>)
        ensures
            r == self@.get_price(token_id),
    {
        match self.listings.get(&token_id) {
            Some(price) => Ok(*price),
            None => Err(Error::TokenNotListedError),
        }
    }

    /// Whether this chain holds `token`.
    pub fn check_own(&self, token: TokenId) -> (r: bool)
        ensures
            r == self@.check_own(token),
    {
        self.owned_tokens.contains_key(&token)
    }

    /// The token found under `token_id`: the one held, or the stand-in of
    /// `chain`.
    pub fn find_token(&self, chain: ChainId, token_id: TokenId) -> (r: Token)
        ensures
            r@ == self@.find_token(chain, token_id),
    {
        match self.owned_tokens.get(&token_id) {
            Some(metadata) => Token { id: token_id, metadata: metadata.clone() },
            None => Token::stand_in(chain),
        }
    }

    /// The metadata of a token that this chain holds; fails where it holds
    /// none that can be told apart from the stand-in of `chain`.
    pub fn get_token(&self, chain: ChainId, token_id: TokenId) -> (r: Result<TokenMetadata, Error>)
        ensures
            match r {
                Ok(metadata) => self@.get_token(chain, token_id) == Ok::<
                    TokenMetadataView,
                    Error,
                >(metadata@),
                Err(e) => self@.get_token(chain, token_id) == Err::<TokenMetadataView, Error>(e),
            },
    {
        let found = self.find_token(chain, token_id);
        let blank = Token::stand_in(chain);
        if found.same(&blank) {
            Err(Error::ThisChainDoesNotOwnThisTokenError)
        } else {
            Ok(found.metadata)
        }
    }

    /// The receipt of a transfer: the canonical bytes of its four parts.
    /// Fails where the payload is too long to be written.
    pub fn on_erc721_received(
        from: &ChainId,
        to: &ChainId,
        token_id: &TokenId,
        data: &Vec<u8>,
    ) -> (r: Result<Vec<u8>, Error>)
        ensures
            match r {
                Ok(bytes) => spec_receipt(*from, *to, *token_id, data@) == Some(bytes@),
                Err(e) => e == Error::BcsError && spec_receipt(*from, *to, *token_id, data@)
                    is None,
            },
    {
        match receipt_to_bytes(from, to, token_id, data) {
            Some(bytes) => Ok(bytes),
            None => Err(Error::BcsError),
        }
    }

    /// Takes `token` out of the tokens held, and its listing with it, where
    /// the chain holds exactly that token.
    pub fn remove_token(&mut self, token: &Token)
        ensures
            final(self)@ == old(self)@.without_token(token@),
    {
        let exact = match self.owned_tokens.get(&token.id) {
            Some(metadata) => metadata.same(&token.metadata),
            None => false,
        };
        if exact {
            self.owned_tokens.remove(&token.id);
            self.listings.remove(&token.id);
        }
    }

    /// Gives up the token found under `token`, and hands it back; the token's
    /// listing goes with it. Where the chain holds none, what it hands back
    /// is the stand-in of `chain`.
    pub fn transfer_from_me(&mut self, chain: ChainId, token: TokenId) -> (r: Token)
        ensures
            r@ == old(self)@.find_token(chain, token),
            final(self)@ == old(self)@.without_token(r@),
    {
        let found = self.find_token(chain, token);
        self.remove_token(&found);
        found
    }

    /// Takes in `token`.
    pub fn transfer_to_me(&mut self, token: &Token)
        ensures
            final(self)@ == old(self)@.transfer_to_me(token@),
    {
        self.owned_tokens.insert(token.id, token.metadata.clone());
    }

    /// Records `new` as the chain that holds `token`.
    pub fn transfer_update_minted(&mut self, token: TokenId, new: ChainId)
        ensures
            final(self)@ == old(self)@.transfer_update_minted(token, new),
    {
        self.current_owner_minted.insert(token, new);
    }

    /// Adds `amount` to the balance, which stays at the largest amount where
    /// the sum would pass it.
    pub fn credit(&mut self, amount: Amount)
        ensures
            final(self)@ == old(self)@.credit(amount),
    {
        self.balance = self.balance.saturating_add(amount);
    }

    /// Takes `amount` from the balance. Fails, and changes nothing, where the
    /// balance does not cover it.
    pub fn debit(&mut self, amount: Amount) -> (r: Result<(), Error>)
        ensures
            match r {
                Ok(_) => old(self)@.debit(amount) == Ok::<AqueductView, Error>(final(self)@),
                Err(e) => old(self)@.debit(amount) == Err::<AqueductView, Error>(e) && final(self)@
                    == old(self)@,
            },
    {
        match self.balance.try_sub(amount) {
            Some(rest) => {
                self.balance = rest;
                Ok(())
            },
            None => Err(Error::InsufficientBalanceError),
        }
    }
}

} // verus!
