use aqueduct::{
    Amount, Aqueduct, ChainId, Error, ExecutionResult, Operation, OperationContext, OperationHost,
    Segment, StreamId, Token, TokenId, TokenMetadata,
};

fn chain(n: u64) -> ChainId {
    ChainId::new(n, n + 1, n + 2, n + 3)
}

fn context(chain_id: ChainId) -> OperationContext {
    OperationContext { chain_id, authenticated_signer: None, height: 1, index: 0 }
}

fn host(chain_id: ChainId, time: u64, text: &str) -> OperationHost {
    OperationHost { chain_id, system_time: time, stream_text: text.to_string(), stream_id: None }
}

fn segment() -> Segment {
    Segment {
        period: 1000,
        constant: 0,
        factor: 1_000_000_000_000_000_000,
        exponent: 1_000_000_000_000_000_000,
        milestone: 10000,
    }
}

fn mint(ledger: &mut Aqueduct, on: ChainId, name: &str, description: &str, text: &str) {
    let operation = Operation::Mint {
        name: name.to_string(),
        description: description.to_string(),
        keywords: vec!["k".to_string()],
        segments: vec![segment()],
    };
    let sent = ledger.execute_operation(&context(on), operation, &host(on, 77, text)).unwrap();
    assert_eq!(sent, ExecutionResult { message: None });
}

#[test]
fn a_new_ledger_is_empty() {
    let ledger = Aqueduct::new();
    assert_eq!(ledger.balance(), Amount::zero());
    assert_eq!(ledger.number_minted, 0);
    assert_eq!(ledger.nfts.len(), 0);
    assert_eq!(ledger.listings.len(), 0);
    assert_eq!(ledger.owned_tokens.len(), 0);
    assert_eq!(ledger.current_owner_minted.len(), 0);
}

#[test]
fn initialize_sends_nothing() {
    let mut ledger = Aqueduct::new();
    let sent = ledger.initialize(&context(chain(1))).unwrap();
    assert_eq!(sent, ExecutionResult { message: None });
    assert_eq!(ledger.balance(), Amount(0));
}

#[test]
fn mint_creates_stream_and_token() {
    let me = chain(1);
    let mut ledger = Aqueduct::new();
    mint(&mut ledger, me, "first", "about", "{stream 0}");
    let id = TokenId { minted_chain: me, index: 0 };
    assert_eq!(ledger.number_minted, 1);
    assert!(ledger.check_own(id));
    assert_eq!(ledger.get_owner(id), Ok(me));
    assert_eq!(
        ledger.get_token(me, id),
        Ok(TokenMetadata {
            name: "first".to_string(),
            description: "about".to_string(),
            image: "{stream 0}".to_string(),
        })
    );
    let stream_id = StreamId { company: me, id: "0".to_string() };
    let stream = ledger.nfts.get(&stream_id).unwrap();
    assert_eq!(stream.keywords, vec!["k".to_string()]);
    assert_eq!(stream.segments, vec![segment()]);
    assert_eq!(stream.created, 77);
    assert_eq!(stream.milestones_received, 0);
    assert_eq!(stream.periods_received, 0);
}

#[test]
fn mint_without_description_uses_the_stream_text() {
    let me = chain(1);
    let mut ledger = Aqueduct::new();
    mint(&mut ledger, me, "first", "", "{stream 0}");
    let id = TokenId { minted_chain: me, index: 0 };
    let metadata = ledger.get_token(me, id).unwrap();
    assert_eq!(metadata.description, "{stream 0}");
    assert_eq!(metadata.image, "{stream 0}");
}

#[test]
fn mint_counts_tokens_and_streams_upwards() {
    let me = chain(1);
    let mut ledger = Aqueduct::new();
    assert_eq!(ledger.next_stream_id(me), StreamId { company: me, id: "0".to_string() });
    for n in 0..12u64 {
        assert_eq!(ledger.next_stream_id(me).id, n.to_string());
        mint(&mut ledger, me, "t", "d", "x");
        assert!(ledger.check_own(TokenId { minted_chain: me, index: n }));
    }
    assert_eq!(ledger.number_minted, 12);
    assert_eq!(ledger.next_stream_id(me), StreamId { company: me, id: "12".to_string() });
    assert_eq!(ledger.nfts.len(), 12);
    assert!(ledger.nfts.contains_key(&StreamId { company: me, id: "10".to_string() }));
}

#[test]
fn burn_removes_token_and_listing() {
    let me = chain(1);
    let mut ledger = Aqueduct::new();
    mint(&mut ledger, me, "t", "d", "x");
    let id = TokenId { minted_chain: me, index: 0 };
    let h = host(me, 0, "");
    ledger
        .execute_operation(&context(me), Operation::List { token_id: id, amount: Amount(5) }, &h)
        .unwrap();
    assert_eq!(ledger.get_price(id), Ok(Amount(5)));
    let sent = ledger.execute_operation(&context(me), Operation::Burn { token_id: id }, &h).unwrap();
    assert_eq!(sent, ExecutionResult { message: None });
    assert!(!ledger.check_own(id));
    assert_eq!(ledger.get_price(id), Err(Error::TokenNotListedError));
}

#[test]
fn burn_of_a_token_not_held_changes_nothing() {
    let me = chain(1);
    let mut ledger = Aqueduct::new();
    mint(&mut ledger, me, "t", "d", "x");
    let other = TokenId { minted_chain: chain(9), index: 3 };
    let h = host(me, 0, "");
    ledger
        .execute_operation(&context(me), Operation::List { token_id: other, amount: Amount(5) }, &h)
        .unwrap();
    let sent =
        ledger.execute_operation(&context(me), Operation::Burn { token_id: other }, &h).unwrap();
    assert_eq!(sent, ExecutionResult { message: None });
    assert_eq!(ledger.owned_tokens.len(), 1);
    assert!(ledger.check_own(TokenId { minted_chain: me, index: 0 }));
    assert_eq!(ledger.get_price(other), Ok(Amount(5)));
}

#[test]
fn list_and_cancel() {
    let me = chain(1);
    let mut ledger = Aqueduct::new();
    let id = TokenId { minted_chain: me, index: 0 };
    let h = host(me, 0, "");
    assert_eq!(ledger.get_price(id), Err(Error::TokenNotListedError));
    ledger
        .execute_operation(&context(me), Operation::List { token_id: id, amount: Amount(5) }, &h)
        .unwrap();
    ledger
        .execute_operation(&context(me), Operation::List { token_id: id, amount: Amount(8) }, &h)
        .unwrap();
    assert_eq!(ledger.get_price(id), Ok(Amount(8)));
    assert_eq!(ledger.listings.len(), 1);
    ledger.execute_operation(&context(me), Operation::Cancel { token_id: id }, &h).unwrap();
    assert_eq!(ledger.get_price(id), Err(Error::TokenNotListedError));
    ledger.execute_operation(&context(me), Operation::Cancel { token_id: id }, &h).unwrap();
    assert_eq!(ledger.listings.len(), 0);
}

#[test]
fn income_credits_the_balance() {
    let me = chain(1);
    let mut ledger = Aqueduct::new();
    let h = host(me, 0, "");
    let operation = Operation::Income { amount: Amount(30), keyword: "k".to_string() };
    let sent = ledger.execute_operation(&context(me), operation, &h).unwrap();
    assert_eq!(sent, ExecutionResult { message: None });
    assert_eq!(ledger.balance(), Amount(30));
}

#[test]
fn credit_saturates() {
    let mut ledger = Aqueduct::new();
    ledger.credit(Amount(u128::MAX - 1));
    ledger.credit(Amount(5));
    assert_eq!(ledger.balance(), Amount(u128::MAX));
}

#[test]
fn debit_takes_exactly_the_amount() {
    let mut ledger = Aqueduct::new();
    ledger.credit(Amount(10));
    assert_eq!(ledger.debit(Amount(4)), Ok(()));
    assert_eq!(ledger.balance(), Amount(6));
    assert_eq!(ledger.debit(Amount(6)), Ok(()));
    assert_eq!(ledger.balance(), Amount(0));
}

#[test]
fn debit_never_overdraws() {
    let mut ledger = Aqueduct::new();
    ledger.credit(Amount(10));
    assert_eq!(ledger.debit(Amount(11)), Err(Error::InsufficientBalanceError));
    assert_eq!(ledger.balance(), Amount(10));
    let mut empty = Aqueduct::new();
    assert_eq!(empty.debit(Amount(1)), Err(Error::InsufficientBalanceError));
    assert_eq!(empty.debit(Amount(0)), Ok(()));
    assert_eq!(empty.balance(), Amount(0));
}

#[test]
fn amounts_add_and_subtract() {
    assert_eq!(Amount::from_attos(7).attos(), 7);
    assert_eq!(Amount(3).saturating_add(Amount(4)), Amount(7));
    assert_eq!(Amount(u128::MAX).saturating_add(Amount(1)), Amount(u128::MAX));
    assert_eq!(Amount(3).try_sub(Amount(4)), None);
    assert_eq!(Amount(4).try_sub(Amount(4)), Some(Amount(0)));
}

#[test]
fn owner_of_record_is_looked_up() {
    let me = chain(1);
    let mut ledger = Aqueduct::new();
    let id = TokenId { minted_chain: me, index: 4 };
    assert_eq!(ledger.get_owner(id), Err(Error::NoOwnerInMintedError));
    ledger.transfer_update_minted(id, chain(20));
    assert_eq!(ledger.get_owner(id), Ok(chain(20)));
    ledger.transfer_update_minted(id, chain(30));
    assert_eq!(ledger.get_owner(id), Ok(chain(30)));
    assert_eq!(ledger.current_owner_minted.len(), 1);
}

#[test]
fn get_token_fails_for_a_token_not_held() {
    let me = chain(1);
    let ledger = Aqueduct::new();
    let id = TokenId { minted_chain: me, index: 4 };
    assert_eq!(ledger.get_token(me, id), Err(Error::ThisChainDoesNotOwnThisTokenError));
    assert_eq!(ledger.find_token(me, id), Token::stand_in(me));
}

#[test]
fn get_token_does_not_tell_the_stand_in_apart() {
    let me = chain(1);
    let mut ledger = Aqueduct::new();
    ledger.transfer_to_me(&Token::stand_in(me));
    let id = TokenId { minted_chain: me, index: 0 };
    assert!(ledger.check_own(id));
    assert_eq!(ledger.get_token(me, id), Err(Error::ThisChainDoesNotOwnThisTokenError));
}

#[test]
fn transfer_from_me_gives_the_token_up() {
    let me = chain(1);
    let mut ledger = Aqueduct::new();
    mint(&mut ledger, me, "t", "d", "x");
    let id = TokenId { minted_chain: me, index: 0 };
    ledger.listings.insert(id, Amount(9));
    let token = ledger.transfer_from_me(me, id);
    assert_eq!(
        token,
        Token {
            id,
            metadata: TokenMetadata {
                name: "t".to_string(),
                description: "d".to_string(),
                image: "x".to_string(),
            },
        }
    );
    assert!(!ledger.check_own(id));
    assert_eq!(ledger.get_price(id), Err(Error::TokenNotListedError));
    assert_eq!(ledger.get_owner(id), Ok(me));
}

#[test]
fn transfer_from_me_hands_out_the_stand_in_for_a_token_not_held() {
    let me = chain(1);
    let mut ledger = Aqueduct::new();
    mint(&mut ledger, me, "t", "d", "x");
    let absent = TokenId { minted_chain: chain(7), index: 2 };
    let token = ledger.transfer_from_me(me, absent);
    assert_eq!(token, Token::stand_in(me));
    assert_eq!(token.id, TokenId { minted_chain: me, index: 0 });
    assert_eq!(token.metadata, TokenMetadata::blank());
    assert!(ledger.check_own(TokenId { minted_chain: me, index: 0 }));
    assert_eq!(ledger.owned_tokens.len(), 1);
}

#[test]
fn transfer_to_me_takes_the_token_in() {
    let me = chain(1);
    let mut ledger = Aqueduct::new();
    let id = TokenId { minted_chain: chain(5), index: 2 };
    let metadata = TokenMetadata {
        name: "n".to_string(),
        description: "d".to_string(),
        image: "i".to_string(),
    };
    let token = Token { id, metadata: metadata.clone() };
    ledger.transfer_to_me(&token);
    ledger.transfer_to_me(&token);
    assert_eq!(ledger.owned_tokens.len(), 1);
    assert_eq!(ledger.get_token(me, id), Ok(metadata));
    ledger.remove_token(&Token { id, metadata: TokenMetadata::blank() });
    assert!(ledger.check_own(id));
    ledger.remove_token(&token);
    assert!(!ledger.check_own(id));
}

#[test]
fn tokens_and_metadata_compare_by_content() {
    let a = TokenMetadata { name: "n".to_string(), description: "d".to_string(), image: "i".to_string() };
    let b = TokenMetadata { name: "n".to_string(), description: "d".to_string(), image: "j".to_string() };
    assert!(a.same(&a.clone()));
    assert!(!a.same(&b));
    let id = TokenId { minted_chain: chain(1), index: 0 };
    let other = TokenId { minted_chain: chain(1), index: 1 };
    assert!(Token { id, metadata: a.clone() }.same(&Token { id, metadata: a.clone() }));
    assert!(!Token { id, metadata: a.clone() }.same(&Token { id: other, metadata: a.clone() }));
    assert!(!Token { id, metadata: a.clone() }.same(&Token { id, metadata: b }));
    let s = StreamId { company: chain(1), id: "0".to_string() };
    assert!(s.same(&s.clone()));
    assert!(!s.same(&StreamId { company: chain(1), id: "1".to_string() }));
    assert!(!s.same(&StreamId { company: chain(2), id: "0".to_string() }));
}

#[test]
fn receive_of_a_token_not_held_fails() {
    let me = chain(1);
    let mut ledger = Aqueduct::new();
    let id = TokenId { minted_chain: me, index: 0 };
    let result = ledger.execute_operation(
        &context(me),
        Operation::Receive { token_id: id },
        &host(me, 0, ""),
    );
    assert_eq!(result, Err(Error::ThisChainDoesNotOwnThisTokenError));
    assert_eq!(ledger.owned_tokens.len(), 0);
}

#[test]
fn a_table_is_walked_key_by_key() {
    let me = chain(1);
    let mut ledger = Aqueduct::new();
    let ids: Vec<TokenId> = (0..5).map(|index| TokenId { minted_chain: me, index }).collect();
    for id in &ids {
        ledger.listings.insert(*id, Amount(id.index as u128 * 10));
    }
    ledger.listings.insert(ids[2], Amount(99));
    ledger.listings.remove(&ids[1]);
    assert_eq!(ledger.listings.remove(&ids[1]), None);
    let mut keys = ledger.listings.keys();
    assert_eq!(keys.len(), ledger.listings.len());
    let walked: Vec<TokenId> =
        (0..keys.len()).map(|i| *ledger.listings.key_at(i).unwrap()).collect();
    assert_eq!(walked, keys);
    assert_eq!(ledger.listings.key_at(keys.len()), None);
    keys.sort_by_key(|id| id.index);
    assert_eq!(keys, vec![ids[0], ids[2], ids[3], ids[4]]);
    assert_eq!(ledger.listings.get(&ids[2]), Some(&Amount(99)));
    assert_eq!(ledger.listings.get(&ids[1]), None);
    assert!(ledger.listings.contains_key(&ids[4]));
    assert!(!ledger.listings.contains_key(&ids[1]));
}
