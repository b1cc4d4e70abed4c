use aqueduct::{
    buy_token, receive_token, report_to, result_carrier, transfer_parts, ActualMessage, Amount,
    Aqueduct, ChainId, CryptoHash, Error, ExecutionResult, Message, MessageContext, MessageHost,
    MessageId, Operation,
    OperationContext, OperationHost, OutgoingMessage, Segment, StreamId, Token, TokenId,
    TokenMetadata, TransferParts, M4,
};
use std::collections::HashMap;

fn chain(n: u64) -> ChainId {
    ChainId::new(n, n + 1, n + 2, n + 3)
}

fn op_context(chain_id: ChainId) -> OperationContext {
    OperationContext { chain_id, authenticated_signer: None, height: 1, index: 0 }
}

fn msg_context(chain_id: ChainId) -> MessageContext {
    MessageContext {
        chain_id,
        authenticated_signer: Some(CryptoHash { w0: 1, w1: 2, w2: 3, w3: 4 }),
        height: 2,
        certificate_hash: CryptoHash { w0: 5, w1: 6, w2: 7, w3: 8 },
        message_id: MessageId { chain_id, height: 1, index: 0 },
    }
}

fn op_host(chain_id: ChainId) -> OperationHost {
    OperationHost { chain_id, system_time: 5, stream_text: "stream".to_string(), stream_id: None }
}

fn msg_host(chain_id: ChainId) -> MessageHost {
    MessageHost { chain_id, system_time: 5, feed: vec![] }
}

fn sends(destination: ChainId, message: Message) -> ExecutionResult {
    ExecutionResult { message: Some(OutgoingMessage { destination, message }) }
}

fn reports(m4: &M4, origin: ChainId, text: &str) -> ExecutionResult {
    sends(
        m4.original_chain,
        Message::Result { m4: m4.clone(), origin, result: text.to_string() },
    )
}

fn buy_carrier(buyer: ChainId, token_id: TokenId) -> M4 {
    M4::of_operation(buyer, Operation::Buy { token_id }, op_context(buyer))
}

fn transfer_carrier(from: ChainId, to: ChainId, token_id: TokenId, data: Vec<u8>) -> M4 {
    M4::of_message(
        from,
        ActualMessage::SafeTransferFrom { from, to, token_id, data },
        msg_context(from),
    )
}

fn result_m4(on: ChainId) -> M4 {
    M4::of_message(
        on,
        ActualMessage::Result { origin: on, result: "SomeError".to_string() },
        msg_context(on),
    )
}

fn mint(ledger: &mut Aqueduct, on: ChainId) -> TokenId {
    let index = ledger.number_minted;
    let operation = Operation::Mint {
        name: "name".to_string(),
        description: "about".to_string(),
        keywords: vec!["k".to_string()],
        segments: vec![Segment { period: 1, constant: 0, factor: 0, exponent: 0, milestone: 9 }],
    };
    ledger.execute_operation(&op_context(on), operation, &op_host(on)).unwrap();
    TokenId { minted_chain: on, index }
}

/// Delivers messages one after another until none is under way; hands back
/// what was delivered, and where.
fn relay(
    world: &mut HashMap<ChainId, Aqueduct>,
    first: ExecutionResult,
    limit: usize,
) -> Vec<(ChainId, Message)> {
    let mut log = Vec::new();
    let mut pending = first.message;
    while let Some(out) = pending {
        assert!(log.len() < limit, "the saga did not end");
        log.push((out.destination, out.message.clone()));
        let ledger = world.entry(out.destination).or_insert_with(Aqueduct::new);
        let context = msg_context(out.destination);
        let sent = ledger.execute_message(&context, out.message, &msg_host(out.destination)).unwrap();
        pending = sent.message;
    }
    log
}

fn name_of(message: &Message) -> &'static str {
    match message {
        Message::Default => "Default",
        Message::SafeTransferFrom { .. } => "SafeTransferFrom",
        Message::Result { .. } => "Result",
        Message::Buy_GetOwner { .. } => "Buy_GetOwner",
        Message::Buy_GetPrice { .. } => "Buy_GetPrice",
        Message::Buy_BackToPay { .. } => "Buy_BackToPay",
        Message::Buy_ReceivePayment { .. } => "Buy_ReceivePayment",
        Message::Buy_ReceiveRollbackPayment { .. } => "Buy_ReceiveRollbackPayment",
        Message::Receive_Company { .. } => "Receive_Company",
        Message::SafeTransferFrom_CheckOwn { .. } => "SafeTransferFrom_CheckOwn",
        Message::SafeTransferFrom_TransferFrom { .. } => "SafeTransferFrom_TransferFrom",
        Message::SafeTransferFrom_TransferTo { .. } => "SafeTransferFrom_TransferTo",
        Message::SafeTransferFrom_UpdateMintedChain { .. } => "SafeTransferFrom_UpdateMintedChain",
        Message::SafeTransferFrom_OnERC721Received { .. } => "SafeTransferFrom_OnERC721Received",
        Message::Result_BackToPay { .. } => "Result_BackToPay",
        Message::Result_ReceivePayment { .. } => "Result_ReceivePayment",
    }
}

fn result_text(message: &Message) -> String {
    match message {
        Message::Result { result, .. } => result.clone(),
        _ => panic!("not a report"),
    }
}

fn holders(world: &HashMap<ChainId, Aqueduct>, token_id: TokenId) -> Vec<ChainId> {
    let mut found: Vec<ChainId> =
        world.iter().filter(|(_, l)| l.check_own(token_id)).map(|(c, _)| *c).collect();
    found.sort_by_key(|c| c.w0);
    found
}

#[test]
fn the_default_message_does_nothing() {
    let me = chain(1);
    let mut ledger = Aqueduct::new();
    let sent = ledger.execute_message(&msg_context(me), Message::Default, &msg_host(me));
    assert_eq!(sent, Ok(ExecutionResult { message: None }));
    assert_eq!(ExecutionResult::default(), ExecutionResult { message: None });
    assert_eq!(Message::default(), Message::Default);
}

#[test]
fn buy_asks_the_minting_chain_for_the_owner() {
    let buyer = chain(1);
    let token_id = TokenId { minted_chain: chain(20), index: 3 };
    let mut ledger = Aqueduct::new();
    let sent = ledger
        .execute_operation(&op_context(buyer), Operation::Buy { token_id }, &op_host(buyer))
        .unwrap();
    let m4 = M4 {
        original_chain: buyer,
        original_operation: Some(Operation::Buy { token_id }),
        original_ope_context: Some(op_context(buyer)),
        original_message: None,
        original_msg_context: None,
    };
    assert_eq!(sent, sends(chain(20), Message::Buy_GetOwner { m4 }));
}

#[test]
fn a_purchase_moves_funds_and_token() {
    let buyer = chain(1);
    let seller = chain(10);
    let mut world: HashMap<ChainId, Aqueduct> = HashMap::new();
    world.insert(buyer, Aqueduct::new());
    world.insert(seller, Aqueduct::new());
    let token_id = mint(world.get_mut(&seller).unwrap(), seller);
    let metadata = world[&seller].get_token(seller, token_id).unwrap();
    world.get_mut(&seller).unwrap().credit(Amount(7));
    world
        .get_mut(&seller)
        .unwrap()
        .execute_operation(
            &op_context(seller),
            Operation::List { token_id, amount: Amount(40) },
            &op_host(seller),
        )
        .unwrap();
    world.get_mut(&buyer).unwrap().credit(Amount(100));

    let begun = world
        .get_mut(&buyer)
        .unwrap()
        .execute_operation(&op_context(buyer), Operation::Buy { token_id }, &op_host(buyer))
        .unwrap();
    let log = relay(&mut world, begun, 20);
    let route: Vec<(ChainId, &str)> = log.iter().map(|(c, m)| (*c, name_of(m))).collect();
    assert_eq!(
        route,
        vec![
            (seller, "Buy_GetOwner"),
            (seller, "Buy_GetPrice"),
            (buyer, "Buy_BackToPay"),
            (seller, "Buy_ReceivePayment"),
            (seller, "SafeTransferFrom"),
            (seller, "SafeTransferFrom_CheckOwn"),
            (seller, "SafeTransferFrom_TransferFrom"),
            (buyer, "SafeTransferFrom_TransferTo"),
            (seller, "SafeTransferFrom_UpdateMintedChain"),
            (buyer, "SafeTransferFrom_OnERC721Received"),
            (seller, "Result"),
        ]
    );
    assert_eq!(result_text(&log[10].1), "Ok(ExecutionResult :: default ())");
    assert_eq!(world[&buyer].balance(), Amount(60));
    assert_eq!(world[&seller].balance(), Amount(47));
    assert_eq!(holders(&world, token_id), vec![buyer]);
    assert_eq!(world[&buyer].get_token(buyer, token_id), Ok(metadata));
    assert_eq!(world[&seller].get_owner(token_id), Ok(buyer));
    assert_eq!(world[&seller].get_price(token_id), Err(Error::TokenNotListedError));
}

#[test]
fn a_purchase_through_a_third_minting_chain() {
    let buyer = chain(1);
    let seller = chain(10);
    let minter = chain(20);
    let mut world: HashMap<ChainId, Aqueduct> = HashMap::new();
    for c in [buyer, seller, minter] {
        world.insert(c, Aqueduct::new());
    }
    let token_id = TokenId { minted_chain: minter, index: 0 };
    let token = Token {
        id: token_id,
        metadata: TokenMetadata {
            name: "n".to_string(),
            description: "d".to_string(),
            image: "i".to_string(),
        },
    };
    world.get_mut(&seller).unwrap().transfer_to_me(&token);
    world.get_mut(&seller).unwrap().listings.insert(token_id, Amount(25));
    world.get_mut(&minter).unwrap().transfer_update_minted(token_id, seller);
    world.get_mut(&buyer).unwrap().credit(Amount(25));

    let begun = world
        .get_mut(&buyer)
        .unwrap()
        .execute_operation(&op_context(buyer), Operation::Buy { token_id }, &op_host(buyer))
        .unwrap();
    let log = relay(&mut world, begun, 20);
    assert_eq!(log.len(), 11);
    assert_eq!(log[0].0, minter);
    assert_eq!(log[8].0, minter);
    assert_eq!(result_text(&log[10].1), "Ok(ExecutionResult :: default ())");
    assert_eq!(world[&buyer].balance(), Amount(0));
    assert_eq!(world[&seller].balance(), Amount(25));
    assert_eq!(holders(&world, token_id), vec![buyer]);
    assert_eq!(world[&minter].get_owner(token_id), Ok(buyer));
    assert_eq!(world[&buyer].find_token(buyer, token_id), token);
}

#[test]
fn a_purchase_of_an_unknown_token_is_reported() {
    let buyer = chain(1);
    let minter = chain(20);
    let mut world: HashMap<ChainId, Aqueduct> = HashMap::new();
    world.insert(buyer, Aqueduct::new());
    let token_id = TokenId { minted_chain: minter, index: 0 };
    let begun = world
        .get_mut(&buyer)
        .unwrap()
        .execute_operation(&op_context(buyer), Operation::Buy { token_id }, &op_host(buyer))
        .unwrap();
    let log = relay(&mut world, begun, 20);
    assert_eq!(log.len(), 2);
    assert_eq!(log[1].0, buyer);
    assert_eq!(
        log[1].1,
        Message::Result {
            m4: buy_carrier(buyer, token_id),
            origin: minter,
            result: "NoOwnerInMintedError".to_string(),
        }
    );
}

#[test]
fn a_purchase_of_an_unlisted_token_is_reported() {
    let buyer = chain(1);
    let seller = chain(10);
    let mut world: HashMap<ChainId, Aqueduct> = HashMap::new();
    world.insert(seller, Aqueduct::new());
    let token_id = mint(world.get_mut(&seller).unwrap(), seller);
    let begun = world
        .entry(buyer)
        .or_insert_with(Aqueduct::new)
        .execute_operation(&op_context(buyer), Operation::Buy { token_id }, &op_host(buyer))
        .unwrap();
    let log = relay(&mut world, begun, 20);
    assert_eq!(log.len(), 3);
    assert_eq!(log[2].0, buyer);
    assert_eq!(
        log[2].1,
        Message::Result {
            m4: buy_carrier(buyer, token_id),
            origin: seller,
            result: "TokenNotListedError".to_string(),
        }
    );
    assert_eq!(holders(&world, token_id), vec![seller]);
}

#[test]
fn a_purchase_that_the_buyer_cannot_pay_is_reported() {
    let buyer = chain(1);
    let seller = chain(10);
    let mut world: HashMap<ChainId, Aqueduct> = HashMap::new();
    world.insert(seller, Aqueduct::new());
    world.insert(buyer, Aqueduct::new());
    let token_id = mint(world.get_mut(&seller).unwrap(), seller);
    world.get_mut(&seller).unwrap().listings.insert(token_id, Amount(40));
    world.get_mut(&buyer).unwrap().credit(Amount(39));
    let begun = world
        .get_mut(&buyer)
        .unwrap()
        .execute_operation(&op_context(buyer), Operation::Buy { token_id }, &op_host(buyer))
        .unwrap();
    let log = relay(&mut world, begun, 20);
    assert_eq!(log.len(), 4);
    assert_eq!(
        log[3],
        (
            buyer,
            Message::Result {
                m4: buy_carrier(buyer, token_id),
                origin: buyer,
                result: "InsufficientBalanceError".to_string(),
            }
        )
    );
    assert_eq!(world[&buyer].balance(), Amount(39));
    assert_eq!(world[&seller].balance(), Amount(0));
    assert_eq!(holders(&world, token_id), vec![seller]);
    assert_eq!(world[&seller].get_price(token_id), Ok(Amount(40)));
}

#[test]
fn the_hops_of_a_purchase_send_what_they_should() {
    let buyer = chain(1);
    let seller = chain(10);
    let token_id = TokenId { minted_chain: seller, index: 0 };
    let m4 = buy_carrier(buyer, token_id);
    let mut ledger = Aqueduct::new();
    ledger.transfer_update_minted(token_id, seller);
    ledger.listings.insert(token_id, Amount(40));
    assert_eq!(
        ledger.buy_get_owner(seller, m4.clone()),
        sends(seller, Message::Buy_GetPrice { m4: m4.clone(), cur_owner: seller })
    );
    assert_eq!(
        ledger.buy_get_price(seller, m4.clone(), seller),
        sends(buyer, Message::Buy_BackToPay { m4: m4.clone(), cur_owner: seller, price: Amount(40) })
    );
    let mut wallet = Aqueduct::new();
    wallet.credit(Amount(50));
    assert_eq!(
        wallet.buy_back_to_pay(buyer, m4.clone(), seller, Amount(40)),
        sends(
            seller,
            Message::Buy_ReceivePayment { m4: m4.clone(), cur_owner: seller, price: Amount(40) }
        )
    );
    assert_eq!(wallet.balance(), Amount(10));
    assert_eq!(
        ledger.buy_receive_payment(seller, m4.clone(), seller, Amount(40), Some(vec![1, 2, 3])),
        sends(
            seller,
            Message::SafeTransferFrom { from: seller, to: buyer, token_id, data: vec![1, 2, 3] }
        )
    );
    assert_eq!(ledger.balance(), Amount(40));
}

#[test]
fn a_price_that_cannot_be_written_pays_the_buyer_back() {
    let buyer = chain(1);
    let seller = chain(10);
    let token_id = TokenId { minted_chain: seller, index: 0 };
    let m4 = buy_carrier(buyer, token_id);
    let mut seller_ledger = Aqueduct::new();
    let sent = seller_ledger.buy_receive_payment(seller, m4.clone(), seller, Amount(40), None);
    assert_eq!(
        sent,
        sends(
            buyer,
            Message::Buy_ReceiveRollbackPayment {
                m4: m4.clone(),
                cur_owner: seller,
                price: Amount(40),
            }
        )
    );
    assert_eq!(seller_ledger.balance(), Amount(40));
    let mut buyer_ledger = Aqueduct::new();
    buyer_ledger.credit(Amount(10));
    let message = sent.message.unwrap().message;
    let sent =
        buyer_ledger.execute_message(&msg_context(buyer), message, &msg_host(buyer)).unwrap();
    assert_eq!(sent, reports(&m4, buyer, "Err(Error :: BcsPriceError)"));
    assert_eq!(buyer_ledger.balance(), Amount(50));
}

#[test]
fn a_purchase_hop_without_its_operation_is_reported() {
    let me = chain(1);
    let token_id = TokenId { minted_chain: me, index: 0 };
    let wrong = [
        M4::of_operation(chain(3), Operation::Receive { token_id }, op_context(chain(3))),
        transfer_carrier(chain(3), me, token_id, vec![]),
        M4 {
            original_chain: chain(3),
            original_operation: None,
            original_ope_context: Some(op_context(chain(3))),
            original_message: None,
            original_msg_context: None,
        },
    ];
    for m4 in wrong {
        assert_eq!(buy_token(&m4), Err(Error::M4MismatchedOperationError));
        let messages = vec![
            Message::Buy_GetOwner { m4: m4.clone() },
            Message::Buy_GetPrice { m4: m4.clone(), cur_owner: me },
            Message::Buy_BackToPay { m4: m4.clone(), cur_owner: me, price: Amount(1) },
            Message::Buy_ReceivePayment { m4: m4.clone(), cur_owner: me, price: Amount(1) },
            Message::Buy_ReceiveRollbackPayment { m4: m4.clone(), cur_owner: me, price: Amount(1) },
        ];
        for message in messages {
            let mut ledger = Aqueduct::new();
            ledger.credit(Amount(5));
            let sent = ledger.execute_message(&msg_context(me), message, &msg_host(me)).unwrap();
            assert_eq!(sent, reports(&m4, me, "M4MismatchedOperationError"));
            assert_eq!(ledger.balance(), Amount(5));
        }
    }
}

#[test]
fn a_purchase_hop_without_its_context_is_reported() {
    let me = chain(1);
    let token_id = TokenId { minted_chain: me, index: 0 };
    let m4 = M4 {
        original_chain: chain(3),
        original_operation: Some(Operation::Buy { token_id }),
        original_ope_context: None,
        original_message: None,
        original_msg_context: None,
    };
    assert_eq!(buy_token(&m4), Err(Error::M4MismatchedOperationContextError));
    assert_eq!(buy_token(&buy_carrier(me, token_id)), Ok(token_id));
    let mut ledger = Aqueduct::new();
    let sent = ledger
        .execute_message(&msg_context(me), Message::Buy_GetOwner { m4: m4.clone() }, &msg_host(me))
        .unwrap();
    assert_eq!(sent, reports(&m4, me, "M4MismatchedOperationContextError"));
}

#[test]
fn the_carrier_readers_tell_sagas_apart() {
    let me = chain(1);
    let token_id = TokenId { minted_chain: me, index: 0 };
    let receive = M4::of_operation(me, Operation::Receive { token_id }, op_context(me));
    assert_eq!(receive_token(&receive), Ok(token_id));
    assert_eq!(receive_token(&buy_carrier(me, token_id)), Err(Error::M4MismatchedOperationError));
    let mut bare = receive.clone();
    bare.original_ope_context = None;
    assert_eq!(receive_token(&bare), Err(Error::M4MismatchedOperationContextError));

    let transfer = transfer_carrier(me, chain(5), token_id, vec![4, 5]);
    assert_eq!(
        transfer_parts(&transfer),
        Ok(TransferParts { from: me, to: chain(5), token_id, data: vec![4, 5] })
    );
    assert_eq!(transfer_parts(&receive), Err(Error::M4MismatchedMessageError));
    assert_eq!(transfer_parts(&result_m4(me)), Err(Error::M4MismatchedMessageError));
    let mut bare = transfer.clone();
    bare.original_msg_context = None;
    assert_eq!(transfer_parts(&bare), Err(Error::M4MismatchedMessageContextError));

    assert_eq!(result_carrier(&result_m4(me)), Ok(()));
    assert_eq!(result_carrier(&transfer), Err(Error::M4MismatchedMessageError));
    let mut bare = result_m4(me);
    bare.original_msg_context = None;
    assert_eq!(result_carrier(&bare), Err(Error::M4MismatchedMessageContextError));
}

#[test]
fn report_to_addresses_the_chain_where_the_saga_began() {
    let m4 = buy_carrier(chain(1), TokenId { minted_chain: chain(2), index: 0 });
    assert_eq!(
        report_to(m4.clone(), chain(9), "text".to_string()),
        sends(chain(1), Message::Result { m4, origin: chain(9), result: "text".to_string() })
    );
}

#[test]
fn a_transfer_moves_the_token_and_keeps_one_holder() {
    let from = chain(1);
    let to = chain(10);
    let minter = chain(20);
    let mut world: HashMap<ChainId, Aqueduct> = HashMap::new();
    for c in [from, to, minter] {
        world.insert(c, Aqueduct::new());
    }
    let token_id = TokenId { minted_chain: minter, index: 2 };
    let token = Token {
        id: token_id,
        metadata: TokenMetadata {
            name: "n".to_string(),
            description: "d".to_string(),
            image: "i".to_string(),
        },
    };
    world.get_mut(&from).unwrap().transfer_to_me(&token);
    world.get_mut(&minter).unwrap().transfer_update_minted(token_id, from);

    let mut pending = Some(OutgoingMessage {
        destination: from,
        message: Message::SafeTransferFrom { from, to, token_id, data: vec![9, 9] },
    });
    let mut route = Vec::new();
    while let Some(out) = pending {
        route.push((out.destination, name_of(&out.message)));
        let last = if let Message::Result { result, .. } = &out.message {
            Some(result.clone())
        } else {
            None
        };
        let ledger = world.get_mut(&out.destination).unwrap();
        let sent = ledger
            .execute_message(&msg_context(out.destination), out.message, &msg_host(out.destination))
            .unwrap();
        assert!(holders(&world, token_id).len() <= 1);
        if let Some(text) = last {
            assert_eq!(text, "Ok(ExecutionResult :: default ())");
        }
        pending = sent.message;
    }
    assert_eq!(
        route,
        vec![
            (from, "SafeTransferFrom"),
            (from, "SafeTransferFrom_CheckOwn"),
            (from, "SafeTransferFrom_TransferFrom"),
            (to, "SafeTransferFrom_TransferTo"),
            (minter, "SafeTransferFrom_UpdateMintedChain"),
            (to, "SafeTransferFrom_OnERC721Received"),
            (from, "Result"),
        ]
    );
    assert_eq!(holders(&world, token_id), vec![to]);
    assert_eq!(world[&minter].get_owner(token_id), Ok(to));
    assert_eq!(world[&to].find_token(to, token_id), token);
}

#[test]
fn a_transfer_asked_of_another_chain_is_refused() {
    let me = chain(1);
    let from = chain(5);
    let token_id = TokenId { minted_chain: me, index: 0 };
    let mut ledger = Aqueduct::new();
    let message = Message::SafeTransferFrom { from, to: chain(7), token_id, data: vec![1] };
    let sent = ledger.execute_message(&msg_context(me), message, &msg_host(me)).unwrap();
    let m4 = M4::of_message(
        me,
        ActualMessage::SafeTransferFrom { from, to: chain(7), token_id, data: vec![1] },
        msg_context(me),
    );
    assert_eq!(sent, reports(&m4, me, "Err(Error :: NotAnOperatorNorApproved)"));
}

#[test]
fn a_transfer_of_a_token_not_held_is_refused() {
    let me = chain(1);
    let token_id = TokenId { minted_chain: me, index: 0 };
    let m4 = transfer_carrier(me, chain(7), token_id, vec![1]);
    let mut ledger = Aqueduct::new();
    let message = Message::SafeTransferFrom_CheckOwn { m4: m4.clone(), sender: me };
    let sent = ledger.execute_message(&msg_context(me), message, &msg_host(me)).unwrap();
    assert_eq!(sent, reports(&m4, me, "Err(Error :: DoesNotOwnToken)"));
    mint(&mut ledger, me);
    assert_eq!(
        ledger.transfer_check_own(me, m4.clone(), me),
        sends(me, Message::SafeTransferFrom_TransferFrom { m4, sender: me, own: true })
    );
}

#[test]
fn a_transfer_hop_without_its_message_is_reported() {
    let me = chain(1);
    let token_id = TokenId { minted_chain: me, index: 0 };
    let token = Token::stand_in(me);
    let wrong = buy_carrier(chain(3), token_id);
    let mut bare = transfer_carrier(chain(3), me, token_id, vec![]);
    bare.original_msg_context = None;
    for (m4, text) in
        [(wrong, "M4MismatchedMessageError"), (bare, "M4MismatchedMessageContextError")]
    {
        let messages = vec![
            Message::SafeTransferFrom_CheckOwn { m4: m4.clone(), sender: me },
            Message::SafeTransferFrom_TransferFrom { m4: m4.clone(), sender: me, own: true },
            Message::SafeTransferFrom_TransferTo {
                m4: m4.clone(),
                sender: me,
                own: true,
                token: token.clone(),
            },
            Message::SafeTransferFrom_UpdateMintedChain {
                m4: m4.clone(),
                sender: me,
                own: true,
                token: token.clone(),
            },
            Message::SafeTransferFrom_OnERC721Received {
                m4: m4.clone(),
                sender: me,
                own: true,
                token: token.clone(),
            },
        ];
        for message in messages {
            let mut ledger = Aqueduct::new();
            let sent = ledger.execute_message(&msg_context(me), message, &msg_host(me)).unwrap();
            assert_eq!(sent, reports(&m4, chain(1), text));
            assert_eq!(ledger.owned_tokens.len(), 0);
            assert_eq!(ledger.current_owner_minted.len(), 0);
        }
    }
}

#[test]
fn a_receipt_that_differs_fails_the_transfer() {
    let me = chain(1);
    let token_id = TokenId { minted_chain: me, index: 0 };
    let m4 = transfer_carrier(chain(3), me, token_id, vec![1]);
    let ledger = Aqueduct::new();
    assert_eq!(
        ledger.conclude_transfer(me, m4.clone(), Some(vec![1, 2]), Some(vec![1, 3])),
        reports(&m4, me, "Err(Error :: AfterTransferCheckFailed)")
    );
    assert_eq!(
        ledger.conclude_transfer(me, m4.clone(), Some(vec![1, 2]), Some(vec![1, 2])),
        reports(&m4, me, "Ok(ExecutionResult :: default ())")
    );
    assert_eq!(
        ledger.conclude_transfer(me, m4.clone(), None, Some(vec![1, 2])),
        reports(&m4, me, "Err(Error :: BcsError)")
    );
    assert_eq!(
        ledger.conclude_transfer(me, m4.clone(), Some(vec![1, 2]), None),
        reports(&m4, me, "Err(Error :: BcsError)")
    );
}

#[test]
fn a_failed_transfer_restores_the_balances() {
    let buyer = chain(1);
    let seller = chain(10);
    let mut world: HashMap<ChainId, Aqueduct> = HashMap::new();
    world.insert(buyer, Aqueduct::new());
    world.insert(seller, Aqueduct::new());
    world.get_mut(&buyer).unwrap().credit(Amount(100));
    world.get_mut(&seller).unwrap().credit(Amount(7));
    let token_id = TokenId { minted_chain: seller, index: 0 };
    // The seller lists a token that it does not hold, so that the payment goes
    // through and the transfer fails.
    world.get_mut(&seller).unwrap().listings.insert(token_id, Amount(40));
    world.get_mut(&seller).unwrap().transfer_update_minted(token_id, seller);

    let begun = world
        .get_mut(&buyer)
        .unwrap()
        .execute_operation(&op_context(buyer), Operation::Buy { token_id }, &op_host(buyer))
        .unwrap();
    let log = relay(&mut world, begun, 20);
    let route: Vec<(ChainId, &str)> = log.iter().map(|(c, m)| (*c, name_of(m))).collect();
    assert_eq!(
        route,
        vec![
            (seller, "Buy_GetOwner"),
            (seller, "Buy_GetPrice"),
            (buyer, "Buy_BackToPay"),
            (seller, "Buy_ReceivePayment"),
            (seller, "SafeTransferFrom"),
            (seller, "SafeTransferFrom_CheckOwn"),
            (seller, "Result"),
            (seller, "Result_BackToPay"),
            (buyer, "Result_ReceivePayment"),
            (seller, "Result"),
        ]
    );
    assert_eq!(result_text(&log[6].1), "Err(Error :: DoesNotOwnToken)");
    assert_eq!(result_text(&log[9].1), "Ok(ExecutionResult :: default ())");
    assert_eq!(world[&buyer].balance(), Amount(100));
    assert_eq!(world[&seller].balance(), Amount(7));
    assert_eq!(holders(&world, token_id), Vec::<ChainId>::new());
}

#[test]
fn a_compensation_that_cannot_be_paid_is_reported() {
    let seller = chain(10);
    let buyer = chain(1);
    let m4 = result_m4(seller);
    let mut ledger = Aqueduct::new();
    ledger.credit(Amount(3));
    let sent = ledger.result_back_to_pay(seller, m4.clone(), seller, buyer, Amount(4));
    assert_eq!(sent, reports(&m4, seller, "InsufficientBalanceError"));
    assert_eq!(ledger.balance(), Amount(3));
    let sent = ledger.result_back_to_pay(seller, m4.clone(), seller, buyer, Amount(3));
    assert_eq!(
        sent,
        sends(
            buyer,
            Message::Result_ReceivePayment {
                m4: m4.clone(),
                from: seller,
                to: buyer,
                price: Amount(3),
            }
        )
    );
    assert_eq!(ledger.balance(), Amount(0));
    let sent = ledger.result_receive_payment(buyer, m4.clone(), seller, buyer, Amount(3));
    assert_eq!(sent, reports(&m4, buyer, "Ok(ExecutionResult :: default ())"));
    assert_eq!(ledger.balance(), Amount(3));
}

#[test]
fn a_compensation_hop_without_its_report_is_refused() {
    let me = chain(1);
    let token_id = TokenId { minted_chain: me, index: 0 };
    let wrong = transfer_carrier(chain(3), me, token_id, vec![]);
    let mut bare = result_m4(chain(3));
    bare.original_msg_context = None;
    for (m4, text) in
        [(wrong, "M4MismatchedMessageError"), (bare, "M4MismatchedMessageContextError")]
    {
        let messages = vec![
            Message::Result_BackToPay { m4: m4.clone(), from: me, to: me, price: Amount(1) },
            Message::Result_ReceivePayment { m4: m4.clone(), from: me, to: me, price: Amount(1) },
        ];
        for message in messages {
            let mut ledger = Aqueduct::new();
            ledger.credit(Amount(5));
            let sent = ledger.execute_message(&msg_context(me), message, &msg_host(me)).unwrap();
            assert_eq!(sent, reports(&m4, me, text));
            assert_eq!(ledger.balance(), Amount(5));
        }
    }
}

#[test]
fn receive_asks_the_company_of_the_stream() {
    let me = chain(1);
    let company = chain(30);
    let mut ledger = Aqueduct::new();
    let token_id = mint(&mut ledger, me);
    let metadata = ledger.get_token(me, token_id).unwrap();
    let stream_id = StreamId { company, id: "0".to_string() };
    let host = OperationHost {
        chain_id: me,
        system_time: 5,
        stream_text: String::new(),
        stream_id: Some(stream_id.clone()),
    };
    let sent = ledger
        .execute_operation(&op_context(me), Operation::Receive { token_id }, &host)
        .unwrap();
    let m4 = M4::of_operation(me, Operation::Receive { token_id }, op_context(me));
    assert_eq!(
        sent,
        sends(company, Message::Receive_Company { m4: m4.clone(), metadata, stream_id })
    );
    let sent = ledger
        .execute_operation(&op_context(me), Operation::Receive { token_id }, &op_host(me))
        .unwrap();
    assert_eq!(sent, reports(&m4, me, "Err(Error :: JsonError)"));
}

#[test]
fn the_company_reports_an_accrual() {
    let asker = chain(1);
    let company = chain(30);
    let mut ledger = Aqueduct::new();
    let token_id = mint(&mut ledger, company);
    let m4 = M4::of_operation(asker, Operation::Receive { token_id }, op_context(asker));
    let known = StreamId { company, id: "0".to_string() };
    let unknown = StreamId { company, id: "1".to_string() };
    let sent = ledger.receive_company(m4.clone(), &known, &msg_host(company));
    assert_eq!(sent, reports(&m4, company, "Ok(ExecutionResult :: default ())"));
    let sent = ledger.receive_company(m4.clone(), &unknown, &msg_host(company));
    assert_eq!(sent, reports(&m4, company, "CompanyDoesntHaveStreamError"));
    let wrong = buy_carrier(asker, token_id);
    let message = Message::Receive_Company {
        m4: wrong.clone(),
        metadata: TokenMetadata::blank(),
        stream_id: known,
    };
    let sent =
        ledger.execute_message(&msg_context(company), message, &msg_host(company)).unwrap();
    assert_eq!(sent, reports(&wrong, company, "M4MismatchedOperationError"));
}
