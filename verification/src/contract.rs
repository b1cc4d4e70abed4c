//! The step executor. A user's operation or an incoming message is executed
//! against the chain's ledger and sends at most one message onward. Each hop
//! of a saga is one such step; what links the hops is the context that every
//! message of a saga carries.

use crate::accrual::{feed_view, WindowFeed, WindowFeedView};
use crate::codec::{
    amount_from_bytes, amount_to_bytes, contains_text, decimal_digits, decimal_text,
    receipt_to_bytes, same_bytes, spec_amount_from_bytes, spec_bytes_of, spec_receipt,
    text_contains,
};
use crate::error::{spec_failure_mark, spec_success_text, success_text, Error};
use crate::message::{
    clone_bytes, ActualMessage, ActualMessageView, ExecutionResult, M4View, Message,
    MessageContext, MessageView, Operation, OperationContext, OperationView,
    OutgoingMessageView, M4,
};
use crate::state::{Aqueduct, AqueductView};
use crate::types::{
    Amount, ChainId, Segment, Stream, StreamId, StreamIdView, StreamView, Token, TokenId,
    TokenMetadata, TokenMetadataView, TokenView,
};
use vstd::bytes::spec_u128_to_le_bytes;
use vstd::prelude::*;

verus! {

/// What the hosting chain supplies to the execution of an operation: its own
/// identity, its clock, the text form of the stream identity that a mint will
/// assign (see `next_stream_id`), and the stream identity read out of the
/// image of the token that a `Receive` names, where it could be read.
#[derive(Debug, PartialEq, Eq)]
pub struct OperationHost {
    pub chain_id: ChainId,
    pub system_time: u64,
    pub stream_text: String,
    pub stream_id: Option<StreamId>,
}

pub struct OperationHostView {
    pub chain_id: ChainId,
    pub system_time: u64,
    pub stream_text: Seq<char>,
    pub stream_id: Option<StreamIdView>,
}

impl View for OperationHost {
    type V = OperationHostView;

    open spec fn view(&self) -> OperationHostView {
        OperationHostView {
            chain_id: self.chain_id,
            system_time: self.system_time,
            stream_text: self.stream_text@,
            stream_id: match self.stream_id {
                Some(id) => Some(id@),
                None => None,
            },
        }
    }
}

/// What the hosting chain supplies to the execution of a message: its own
/// identity, its clock, and, for an accrual, the feed of the walk's windows
/// (see `accrual_windows`).
#[derive(Debug, PartialEq, Eq)]
pub struct MessageHost {
    pub chain_id: ChainId,
    pub system_time: u64,
    pub feed: Vec<WindowFeed>,
}

pub struct MessageHostView {
    pub chain_id: ChainId,
    pub system_time: u64,
    pub feed: Seq<WindowFeedView>,
}

impl View for MessageHost {
    type V = MessageHostView;

    open spec fn view(&self) -> MessageHostView {
        MessageHostView {
            chain_id: self.chain_id,
            system_time: self.system_time,
            feed: feed_view(self.feed@),
        }
    }
}

/// What a step comes to: the ledger after it, and what it sends.
pub struct Step {
    pub state: AqueductView,
    pub sent: Option<OutgoingMessageView>,
}

/// What the execution of an operation comes to: the ledger after it, and
/// what it sends or why it failed.
pub struct OperationStep {
    pub state: AqueductView,
    pub outcome: Result<Option<OutgoingMessageView>, Error>,
}

/// The four parts of a transfer.
#[derive(Debug, PartialEq, Eq)]
pub struct TransferParts {
    pub from: ChainId,
    pub to: ChainId,
    pub token_id: TokenId,
    pub data: Vec<u8>,
}

pub struct TransferPartsView {
    pub from: ChainId,
    pub to: ChainId,
    pub token_id: TokenId,
    pub data: Seq<u8>,
}

impl View for TransferParts {
    type V = TransferPartsView;

    open spec fn view(&self) -> TransferPartsView {
        TransferPartsView {
            from: self.from,
            to: self.to,
            token_id: self.token_id,
            data: self.data@,
        }
    }
}

/// One message to one chain.
pub open spec fn send(destination: ChainId, message: MessageView) -> Option<OutgoingMessageView> {
    Some(OutgoingMessageView { destination, message })
}

/// The end of a saga: a `Result` with `text`, sent from `chain` to the chain
/// on which the saga began.
pub open spec fn report(m4: M4View, chain: ChainId, text: Seq<char>) -> Option<
    OutgoingMessageView,
> {
    send(m4.original_chain, MessageView::Result { m4, origin: chain, result: text })
}

/// The token that a purchase is about, read from the saga's context; fails
/// where the context does not hold a `Buy` operation, or not its context.
pub open spec fn spec_buy_token(m4: M4View) -> Result<TokenId, Error> {
    match m4.original_operation {
        Some(OperationView::Buy { token_id }) => if m4.original_ope_context is Some {
            Ok(token_id)
        } else {
            Err(Error::M4MismatchedOperationContextError)
        },
        _ => Err(Error::M4MismatchedOperationError),
    }
}

/// The token that an accrual is about, read from the saga's context; fails
/// where the context does not hold a `Receive` operation, or not its context.
pub open spec fn spec_receive_token(m4: M4View) -> Result<TokenId, Error> {
    match m4.original_operation {
        Some(OperationView::Receive { token_id }) => if m4.original_ope_context is Some {
            Ok(token_id)
        } else {
            Err(Error::M4MismatchedOperationContextError)
        },
        _ => Err(Error::M4MismatchedOperationError),
    }
}

/// The parts of the transfer that a saga is about, read from its context;
/// fails where the context does not hold a `SafeTransferFrom` message, or not
/// its context.
pub open spec fn spec_transfer_parts(m4: M4View) -> Result<TransferPartsView, Error> {
    match m4.original_message {
        Some(ActualMessageView::SafeTransferFrom { from, to, token_id, data }) => if
            m4.original_msg_context is Some {
            Ok(TransferPartsView { from, to, token_id, data })
        } else {
            Err(Error::M4MismatchedMessageContextError)
        },
        _ => Err(Error::M4MismatchedMessageError),
    }
}

/// Whether a saga's context is that of a compensation: it holds a `Result`
/// message and its context.
pub open spec fn spec_result_carrier(m4: M4View) -> Result<(), Error> {
    match m4.original_message {
        Some(ActualMessageView::Result { origin, result }) => if m4.original_msg_context is Some {
            Ok(())
        } else {
            Err(Error::M4MismatchedMessageContextError)
        },
        _ => Err(Error::M4MismatchedMessageError),
    }
}

/// The identity that the chain's next mint gives its stream: the chain, and
/// the count of the streams it holds, in decimal.
pub open spec fn spec_next_stream_id(state: AqueductView, chain: ChainId) -> StreamIdView {
    StreamIdView { company: chain, id: decimal_digits(state.nfts.dom().len()) }
}

/// The identity that the chain's next mint gives its token.
pub open spec fn spec_next_token_id(state: AqueductView, chain: ChainId) -> TokenId {
    TokenId { minted_chain: chain, index: state.number_minted }
}

/// A mint: a new stream with its cursor at the start, and a new token of the
/// chain's own that the chain holds and records itself as the owner of. The
/// token's image is the stream's text; so is its description, where none is
/// given.
pub open spec fn spec_mint(
    state: AqueductView,
    host: OperationHostView,
    name: Seq<char>,
    description: Seq<char>,
    keywords: Seq<Seq<char>>,
    segments: Seq<Segment>,
) -> AqueductView {
    let stream = StreamView {
        keywords,
        segments,
        created: host.system_time,
        milestones_received: 0,
        periods_received: 0,
    };
    let metadata = TokenMetadataView {
        name,
        description: if description.len() == 0 {
            host.stream_text
        } else {
            description
        },
        image: host.stream_text,
    };
    let id = spec_next_token_id(state, host.chain_id);
    AqueductView {
        nfts: state.nfts.insert(spec_next_stream_id(state, host.chain_id), stream),
        listings: state.listings,
        number_minted: (state.number_minted + 1) as u64,
        current_owner_minted: state.current_owner_minted.insert(id, host.chain_id),
        owned_tokens: state.owned_tokens.insert(id, metadata),
        balance: state.balance,
    }
}

/// A burn: the token and its listing go, on the chain that holds the token.
/// On any other chain nothing changes.
pub open spec fn spec_burn(state: AqueductView, token_id: TokenId) -> AqueductView {
    if state.owned_tokens.contains_key(token_id) {
        AqueductView {
            owned_tokens: state.owned_tokens.remove(token_id),
            listings: state.listings.remove(token_id),
            ..state
        }
    } else {
        state
    }
}

/// A listing: the token is for sale at `amount`.
pub open spec fn spec_list(state: AqueductView, token_id: TokenId, amount: Amount) -> AqueductView {
    AqueductView { listings: state.listings.insert(token_id, amount), ..state }
}

/// A cancellation: the token is no longer for sale.
pub open spec fn spec_cancel(state: AqueductView, token_id: TokenId) -> AqueductView {
    AqueductView { listings: state.listings.remove(token_id), ..state }
}

/// The first hop of an accrual: the chain looks up the token it is asked
/// about, and sends the stream's company the request; where the token's image
/// names no stream, the saga ends at once.
pub open spec fn spec_receive(
    state: AqueductView,
    context: OperationContext,
    operation: OperationView,
    token_id: TokenId,
    host: OperationHostView,
) -> Result<Option<OutgoingMessageView>, Error> {
    let m4 = M4::spec_of_operation(host.chain_id, operation, context);
    match state.get_token(host.chain_id, token_id) {
        Err(e) => Err(e),
        Ok(metadata) => match host.stream_id {
            Some(stream_id) => Ok(
                send(stream_id.company, MessageView::Receive_Company { m4, metadata, stream_id }),
            ),
            None => Ok(report(m4, host.chain_id, Error::JsonError.spec_text())),
        },
    }
}

/// What the execution of an operation comes to.
pub open spec fn spec_execute_operation(
    state: AqueductView,
    context: OperationContext,
    operation: OperationView,
    host: OperationHostView,
) -> OperationStep {
    match operation {
        OperationView::Mint { name, description, keywords, segments } => OperationStep {
            state: spec_mint(state, host, name, description, keywords, segments),
            outcome: Ok(None),
        },
        OperationView::Burn { token_id } => OperationStep {
            state: spec_burn(state, token_id),
            outcome: Ok(None),
        },
        OperationView::List { token_id, amount } => OperationStep {
            state: spec_list(state, token_id, amount),
            outcome: Ok(None),
        },
        OperationView::Cancel { token_id } => OperationStep {
            state: spec_cancel(state, token_id),
            outcome: Ok(None),
        },
        OperationView::Income { amount, keyword } => OperationStep {
            state: state.credit(amount),
            outcome: Ok(None),
        },
        OperationView::Buy { token_id } => OperationStep {
            state,
            outcome: Ok(
                send(
                    token_id.minted_chain,
                    MessageView::Buy_GetOwner {
                        m4: M4::spec_of_operation(host.chain_id, operation, context),
                    },
                ),
            ),
        },
        OperationView::Receive { token_id } => OperationStep {
            state,
            outcome: spec_receive(state, context, operation, token_id, host),
        },
    }
}

/// The purchase's hop on the minting chain: who holds the token?
pub open spec fn hop_get_owner(state: AqueductView, chain: ChainId, m4: M4View) -> Step {
    Step {
        state,
        sent: match spec_buy_token(m4) {
            Err(e) => report(m4, chain, e.spec_text()),
            Ok(token_id) => match state.get_owner(token_id) {
                Ok(cur_owner) => send(cur_owner, MessageView::Buy_GetPrice { m4, cur_owner }),
                Err(e) => report(m4, chain, e.spec_text()),
            },
        },
    }
}

/// The purchase's hop on the owner's chain: at what price is the token
/// listed?
pub open spec fn hop_get_price(
    state: AqueductView,
    chain: ChainId,
    m4: M4View,
    cur_owner: ChainId,
) -> Step {
    Step {
        state,
        sent: match spec_buy_token(m4) {
            Err(e) => report(m4, chain, e.spec_text()),
            Ok(token_id) => match state.get_price(token_id) {
                Ok(price) => send(
                    m4.original_chain,
                    MessageView::Buy_BackToPay { m4, cur_owner, price },
                ),
                Err(e) => report(m4, chain, e.spec_text()),
            },
        },
    }
}

/// The purchase's hop back on the buyer's chain: the buyer pays.
pub open spec fn hop_back_to_pay(
    state: AqueductView,
    chain: ChainId,
    m4: M4View,
    cur_owner: ChainId,
    price: Amount,
) -> Step {
    match spec_buy_token(m4) {
        Err(e) => Step { state, sent: report(m4, chain, e.spec_text()) },
        Ok(token_id) => match state.debit(price) {
            Ok(paid) => Step {
                state: paid,
                sent: send(cur_owner, MessageView::Buy_ReceivePayment { m4, cur_owner, price }),
            },
            Err(e) => Step { state, sent: report(m4, chain, e.spec_text()) },
        },
    }
}

/// The purchase's hop on the seller's chain: the seller is paid, and the
/// transfer of the token begins, with the price as its payload. `payload` is
/// the price in bytes; where there is none, the buyer is to be paid back.
pub open spec fn hop_receive_payment(
    state: AqueductView,
    chain: ChainId,
    m4: M4View,
    cur_owner: ChainId,
    price: Amount,
    payload: Option<Seq<u8>>,
) -> Step {
    match spec_buy_token(m4) {
        Err(e) => Step { state, sent: report(m4, chain, e.spec_text()) },
        Ok(token_id) => Step {
            state: state.credit(price),
            sent: match payload {
                Some(data) => send(
                    cur_owner,
                    MessageView::SafeTransferFrom {
                        from: cur_owner,
                        to: m4.original_chain,
                        token_id,
                        data,
                    },
                ),
                None => send(
                    m4.original_chain,
                    MessageView::Buy_ReceiveRollbackPayment { m4, cur_owner, price },
                ),
            },
        },
    }
}

/// The purchase's hop that pays the buyer back, and ends the saga with the
/// report that the price could not be written.
pub open spec fn hop_receive_rollback_payment(
    state: AqueductView,
    chain: ChainId,
    m4: M4View,
    cur_owner: ChainId,
    price: Amount,
) -> Step {
    match spec_buy_token(m4) {
        Err(e) => Step { state, sent: report(m4, chain, e.spec_text()) },
        Ok(token_id) => Step {
            state: state.credit(price),
            sent: report(m4, chain, Error::BcsPriceError.spec_text()),
        },
    }
}

/// The accrual's hop on the company's chain: the stream pays out what is
/// due, and the saga ends.
pub open spec fn hop_company(
    state: AqueductView,
    m4: M4View,
    stream_id: StreamIdView,
    host: MessageHostView,
) -> Step {
    match spec_receive_token(m4) {
        Err(e) => Step { state, sent: report(m4, host.chain_id, e.spec_text()) },
        Ok(token_id) => {
            let paid = state.handle_receive(stream_id, host.system_time, host.feed);
            Step {
                state: paid.1,
                sent: match paid.0 {
                    Ok(amount) => report(m4, host.chain_id, spec_success_text()),
                    Err(e) => report(m4, host.chain_id, e.spec_text()),
                },
            }
        },
    }
}

/// The transfer's first hop: the saga's context is made. Only the chain that
/// gives the token may be asked.
pub open spec fn hop_safe_transfer_from(
    state: AqueductView,
    chain: ChainId,
    context: MessageContext,
    from: ChainId,
    to: ChainId,
    token_id: TokenId,
    data: Seq<u8>,
) -> Step {
    let m4 = M4::spec_of_message(
        chain,
        ActualMessageView::SafeTransferFrom { from, to, token_id, data },
        context,
    );
    Step {
        state,
        sent: if from != chain {
            report(m4, chain, Error::NotAnOperatorNorApproved.spec_text())
        } else {
            send(from, MessageView::SafeTransferFrom_CheckOwn { m4, sender: chain })
        },
    }
}

/// The transfer's hop that checks that the giving chain holds the token.
pub open spec fn hop_check_own(state: AqueductView, chain: ChainId, m4: M4View, sender: ChainId) -> Step {
    Step {
        state,
        sent: match spec_transfer_parts(m4) {
            Err(e) => report(m4, chain, e.spec_text()),
            Ok(parts) => if state.check_own(parts.token_id) {
                send(
                    parts.from,
                    MessageView::SafeTransferFrom_TransferFrom { m4, sender, own: true },
                )
            } else {
                report(m4, chain, Error::DoesNotOwnToken.spec_text())
            },
        },
    }
}

/// The transfer's hop on the giving chain: the token leaves.
pub open spec fn hop_transfer_from(
    state: AqueductView,
    chain: ChainId,
    m4: M4View,
    sender: ChainId,
    own: bool,
) -> Step {
    match spec_transfer_parts(m4) {
        Err(e) => Step { state, sent: report(m4, chain, e.spec_text()) },
        Ok(parts) => {
            let token = state.find_token(chain, parts.token_id);
            Step {
                state: state.without_token(token),
                sent: send(
                    parts.to,
                    MessageView::SafeTransferFrom_TransferTo { m4, sender, own, token },
                ),
            }
        },
    }
}

/// The transfer's hop on the receiving chain: the token arrives.
pub open spec fn hop_transfer_to(
    state: AqueductView,
    chain: ChainId,
    m4: M4View,
    sender: ChainId,
    own: bool,
    token: TokenView,
) -> Step {
    match spec_transfer_parts(m4) {
        Err(e) => Step { state, sent: report(m4, chain, e.spec_text()) },
        Ok(parts) => Step {
            state: state.transfer_to_me(token),
            sent: send(
                parts.token_id.minted_chain,
                MessageView::SafeTransferFrom_UpdateMintedChain { m4, sender, own, token },
            ),
        },
    }
}

/// The transfer's hop on the minting chain: the new owner is recorded.
pub open spec fn hop_update_minted(
    state: AqueductView,
    chain: ChainId,
    m4: M4View,
    sender: ChainId,
    own: bool,
    token: TokenView,
) -> Step {
    match spec_transfer_parts(m4) {
        Err(e) => Step { state, sent: report(m4, chain, e.spec_text()) },
        Ok(parts) => Step {
            state: state.transfer_update_minted(parts.token_id, parts.to),
            sent: send(
                parts.to,
                MessageView::SafeTransferFrom_OnERC721Received { m4, sender, own, token },
            ),
        },
    }
}

/// How a transfer ends, given the receipt that was acknowledged and the one
/// computed again: with a failure where either could not be written or the
/// two differ, and with success where they agree.
pub open spec fn transfer_verdict(acknowledged: Option<Seq<u8>>, computed: Option<Seq<u8>>) -> Seq<
    char,
> {
    match acknowledged {
        None => Error::BcsError.spec_text(),
        Some(check) => match computed {
            None => Error::BcsError.spec_text(),
            Some(again) => if check == again {
                spec_success_text()
            } else {
                Error::AfterTransferCheckFailed.spec_text()
            },
        },
    }
}

/// The transfer's last hop, on the receiving chain: the receipt is checked
/// and the saga ends.
pub open spec fn hop_on_received(
    state: AqueductView,
    chain: ChainId,
    m4: M4View,
    acknowledged: Option<Seq<u8>>,
    computed: Option<Seq<u8>>,
) -> Step {
    Step {
        state,
        sent: match spec_transfer_parts(m4) {
            Err(e) => report(m4, chain, e.spec_text()),
            Ok(parts) => report(m4, chain, transfer_verdict(acknowledged, computed)),
        },
    }
}

/// Whether a report calls for compensation: it ends a transfer, and tells of
/// a failure.
pub open spec fn calls_for_compensation(m4: M4View, result: Seq<char>) -> bool {
    m4.original_message matches Some(ActualMessageView::SafeTransferFrom { .. }) && contains_text(
        result,
        spec_failure_mark(),
    )
}

/// The arrival of a report. Where the report ends a transfer and tells of a
/// failure, the payment that went with the transfer is undone: the chain
/// begins a compensation saga, which takes the price, read from the
/// transfer's payload, back from the chain that gave the token and returns
/// it to the chain that was to receive it. A payload that holds no price ends
/// that saga at once. Any other report ends here.
pub open spec fn hop_result(
    state: AqueductView,
    chain: ChainId,
    context: MessageContext,
    m4: M4View,
    origin: ChainId,
    result: Seq<char>,
) -> Step {
    Step {
        state,
        sent: match m4.original_message {
            Some(ActualMessageView::SafeTransferFrom { from, to, token_id, data }) => if
                contains_text(result, spec_failure_mark()) {
                let fresh = M4::spec_of_message(
                    chain,
                    ActualMessageView::Result { origin, result },
                    context,
                );
                match spec_amount_from_bytes(data) {
                    Some(attos) => send(
                        from,
                        MessageView::Result_BackToPay {
                            m4: fresh,
                            from,
                            to,
                            price: Amount(attos),
                        },
                    ),
                    None => report(fresh, chain, Error::BcsError.spec_text()),
                }
            } else {
                None
            },
            _ => None,
        },
    }
}

/// The compensation's hop on the chain that gave the token: the price is
/// taken back.
pub open spec fn hop_result_back_to_pay(
    state: AqueductView,
    chain: ChainId,
    m4: M4View,
    from: ChainId,
    to: ChainId,
    price: Amount,
) -> Step {
    match spec_result_carrier(m4) {
        Err(e) => Step { state, sent: report(m4, chain, e.spec_text()) },
        Ok(_) => match state.debit(price) {
            Ok(paid) => Step {
                state: paid,
                sent: send(to, MessageView::Result_ReceivePayment { m4, from, to, price }),
            },
            Err(e) => Step { state, sent: report(m4, chain, e.spec_text()) },
        },
    }
}

/// The compensation's hop on the chain that was to receive the token: the
/// price is returned, and the saga ends.
pub open spec fn hop_result_receive_payment(
    state: AqueductView,
    chain: ChainId,
    m4: M4View,
    from: ChainId,
    to: ChainId,
    price: Amount,
) -> Step {
    match spec_result_carrier(m4) {
        Err(e) => Step { state, sent: report(m4, chain, e.spec_text()) },
        Ok(_) => Step { state: state.credit(price), sent: report(m4, chain, spec_success_text()) },
    }
}

/// What the execution of a message comes to.
pub open spec fn spec_execute_message(
    state: AqueductView,
    context: MessageContext,
    message: MessageView,
    host: MessageHostView,
) -> Step {
    let chain = host.chain_id;
    match message {
        MessageView::Default => Step { state, sent: None },
        MessageView::SafeTransferFrom { from, to, token_id, data } => hop_safe_transfer_from(
            state,
            chain,
            context,
            from,
            to,
            token_id,
            data,
        ),
        MessageView::Result { m4, origin, result } => hop_result(
            state,
            chain,
            context,
            m4,
            origin,
            result,
        ),
        MessageView::Buy_GetOwner { m4 } => hop_get_owner(state, chain, m4),
        MessageView::Buy_GetPrice { m4, cur_owner } => hop_get_price(state, chain, m4, cur_owner),
        MessageView::Buy_BackToPay { m4, cur_owner, price } => hop_back_to_pay(
            state,
            chain,
            m4,
            cur_owner,
            price,
        ),
        MessageView::Buy_ReceivePayment { m4, cur_owner, price } => hop_receive_payment(
            state,
            chain,
            m4,
            cur_owner,
            price,
            Some(spec_u128_to_le_bytes(price.0)),
        ),
        MessageView::Buy_ReceiveRollbackPayment {
            m4,
            cur_owner,
            price,
        } => hop_receive_rollback_payment(state, chain, m4, cur_owner, price),
        MessageView::Receive_Company { m4, metadata, stream_id } => hop_company(
            state,
            m4,
            stream_id,
            host,
        ),
        MessageView::SafeTransferFrom_CheckOwn { m4, sender } => hop_check_own(
            state,
            chain,
            m4,
            sender,
        ),
        MessageView::SafeTransferFrom_TransferFrom { m4, sender, own } => hop_transfer_from(
            state,
            chain,
            m4,
            sender,
            own,
        ),
        MessageView::SafeTransferFrom_TransferTo { m4, sender, own, token } => hop_transfer_to(
            state,
            chain,
            m4,
            sender,
            own,
            token,
        ),
        MessageView::SafeTransferFrom_UpdateMintedChain {
            m4,
            sender,
            own,
            token,
        } => hop_update_minted(state, chain, m4, sender, own, token),
        MessageView::SafeTransferFrom_OnERC721Received { m4, sender, own, token } => {
            let receipt = match spec_transfer_parts(m4) {
                Ok(parts) => spec_receipt(parts.from, parts.to, parts.token_id, parts.data),
                Err(e) => None,
            };
            hop_on_received(state, chain, m4, receipt, receipt)
        },
        MessageView::Result_BackToPay { m4, from, to, price } => hop_result_back_to_pay(
            state,
            chain,
            m4,
            from,
            to,
            price,
        ),
        MessageView::Result_ReceivePayment { m4, from, to, price } => hop_result_receive_payment(
            state,
            chain,
            m4,
            from,
            to,
            price,
        ),
    }
}

/// What an executed operation returns, as a view.
pub open spec fn outcome_view(r: Result<ExecutionResult, Error>) -> Result<
    Option<OutgoingMessageView>,
    Error,
> {
    match r {
        Ok(result) => Ok(result@),
        Err(e) => Err(e),
    }
}

/// The token that a purchase is about, read from the saga's context.
pub fn buy_token(m4: &M4) -> (r: Result<TokenId, Error>)
    ensures
        r == spec_buy_token(m4@),
{
    match &m4.original_operation {
        Some(Operation::Buy { token_id }) => if m4.original_ope_context.is_some() {
            Ok(*token_id)
        } else {
            Err(Error::M4MismatchedOperationContextError)
        },
        _ => Err(Error::M4MismatchedOperationError),
    }
}

/// The token that an accrual is about, read from the saga's context.
pub fn receive_token(m4: &M4) -> (r: Result<TokenId, Error>)
    ensures
        r == spec_receive_token(m4@),
{
    match &m4.original_operation {
        Some(Operation::Receive { token_id }) => if m4.original_ope_context.is_some() {
            Ok(*token_id)
        } else {
            Err(Error::M4MismatchedOperationContextError)
        },
        _ => Err(Error::M4MismatchedOperationError),
    }
}

/// The parts of the transfer that a saga is about, read from its context.
pub fn transfer_parts(m4: &M4) -> (r: Result<TransferParts, Error>)
    ensures
        match r {
            Ok(parts) => spec_transfer_parts(m4@) == Ok::<TransferPartsView, Error>(parts@),
            Err(e) => spec_transfer_parts(m4@) == Err::<TransferPartsView, Error>(e),
        },
{
    match &m4.original_message {
        Some(ActualMessage::SafeTransferFrom { from, to, token_id, data }) => if
            m4.original_msg_context.is_some() {
            Ok(TransferParts { from: *from, to: *to, token_id: *token_id, data: clone_bytes(data) })
        } else {
            Err(Error::M4MismatchedMessageContextError)
        },
        _ => Err(Error::M4MismatchedMessageError),
    }
}

/// Whether a saga's context is that of a compensation.
pub fn result_carrier(m4: &M4) -> (r: Result<(), Error>)
    ensures
        r == spec_result_carrier(m4@),
{
    match &m4.original_message {
        Some(ActualMessage::Result { origin, result }) => if m4.original_msg_context.is_some() {
            Ok(())
        } else {
            Err(Error::M4MismatchedMessageContextError)
        },
        _ => Err(Error::M4MismatchedMessageError),
    }
}

/// The end of a saga: a `Result` with `text`, sent from `chain` to the chain
/// on which the saga began.
pub fn report_to(m4: M4, chain: ChainId, text: String) -> (r: ExecutionResult)
    ensures
        r@ == report(m4@, chain, text@),
{
    let destination = m4.original_chain;
    ExecutionResult::with_authenticated_message(
        destination,
        Message::Result { m4, origin: chain, result: text },
    )
}

/// How a transfer ends, given the receipt that was acknowledged and the one
/// computed again.
pub fn verdict(acknowledged: &Option<Vec<u8>>, computed: &Option<Vec<u8>>) -> (r: String)
    ensures
        r@ == transfer_verdict(spec_bytes_of(*acknowledged), spec_bytes_of(*computed)),
{
    match acknowledged {
        None => Error::BcsError.text(),
        Some(check) => match computed {
            None => Error::BcsError.text(),
            Some(again) => if same_bytes(check, again) {
                success_text()
            } else {
                Error::AfterTransferCheckFailed.text()
            },
        },
    }
}

impl Aqueduct {
    /// The identity that this chain's next mint gives its stream.
    pub fn next_stream_id(&self, chain: ChainId) -> (r: StreamId)
        ensures
            r@ == spec_next_stream_id(self@, chain),
    {
        StreamId { company: chain, id: decimal_text(self.nfts.len()) }
    }

    /// Sets the application up. There is nothing to set up.
    pub fn initialize(&mut self, context: &OperationContext) -> (r: Result<ExecutionResult, Error>)
        ensures
            outcome_view(r) == Ok::<Option<OutgoingMessageView>, Error>(None),
            final(self)@ == old(self)@,
    {
        Ok(ExecutionResult::default())
    }

    /// Executes a user's operation. `Mint`, `Burn`, `List`, `Cancel` and
    /// `Income` change the ledger and send nothing; `Buy` and `Receive` begin
    /// a saga and send its first message. The only failure is a `Receive` for
    /// a token that this chain does not hold, which changes nothing.
    pub fn execute_operation(
        &mut self,
        context: &OperationContext,
        operation: Operation,
        host: &OperationHost,
    ) -> (r: Result<ExecutionResult, Error>)
        requires
            operation is Mint ==> old(self).number_minted < u64::MAX,
        ensures
            final(self)@ == spec_execute_operation(old(self)@, *context, operation@, host@).state,
            outcome_view(r) == spec_execute_operation(
                old(self)@,
                *context,
                operation@,
                host@,
            ).outcome,
    {
        let chain = host.chain_id;
        match operation {
            Operation::Mint { name, description, keywords, segments } => {
                let stream_id = self.next_stream_id(chain);
                let stream = Stream {
                    keywords,
                    segments,
                    created: host.system_time,
                    milestones_received: 0,
                    periods_received: 0,
                };
                self.nfts.insert(stream_id, stream);
                let description = if description.as_str().is_empty() {
                    host.stream_text.clone()
                } else {
                    description
                };
                let metadata = TokenMetadata { name, description, image: host.stream_text.clone() };
                let id = TokenId { minted_chain: chain, index: self.number_minted };
                self.owned_tokens.insert(id, metadata);
                self.current_owner_minted.insert(id, chain);
                self.number_minted = self.number_minted + 1;
                Ok(ExecutionResult::default())
            },
            Operation::Burn { token_id } => {
                if self.owned_tokens.contains_key(&token_id) {
                    self.owned_tokens.remove(&token_id);
                    self.listings.remove(&token_id);
                }
                Ok(ExecutionResult::default())
            },
            Operation::List { token_id, amount } => {
                self.listings.insert(token_id, amount);
                Ok(ExecutionResult::default())
            },
            Operation::Cancel { token_id } => {
                self.listings.remove(&token_id);
                Ok(ExecutionResult::default())
            },
            Operation::Income { amount, keyword } => {
                self.credit(amount);
                Ok(ExecutionResult::default())
            },
            Operation::Buy { token_id } => {
                let m4 = M4::of_operation(chain, Operation::Buy { token_id }, *context);
                Ok(
                    ExecutionResult::with_authenticated_message(
                        token_id.minted_chain,
                        Message::Buy_GetOwner { m4 },
                    ),
                )
            },
            Operation::Receive { token_id } => {
                let m4 = M4::of_operation(chain, Operation::Receive { token_id }, *context);
                match self.get_token(chain, token_id) {
                    Err(e) => Err(e),
                    Ok(metadata) => match &host.stream_id {
                        Some(stream_id) => Ok(
                            ExecutionResult::with_authenticated_message(
                                stream_id.company,
                                Message::Receive_Company {
                                    m4,
                                    metadata,
                                    stream_id: stream_id.clone(),
                                },
                            ),
                        ),
                        None => Ok(report_to(m4, chain, Error::JsonError.text())),
                    },
                }
            },
        }
    }

    /// The purchase's hop on the minting chain.
    pub fn buy_get_owner(&self, chain: ChainId, m4: M4) -> (r: ExecutionResult)
        ensures
            r@ == hop_get_owner(self@, chain, m4@).sent,
    {
        match buy_token(&m4) {
            Err(e) => report_to(m4, chain, e.text()),
            Ok(token_id) => match self.get_owner(token_id) {
                Ok(cur_owner) => ExecutionResult::with_authenticated_message(
                    cur_owner,
                    Message::Buy_GetPrice { m4, cur_owner },
                ),
                Err(e) => report_to(m4, chain, e.text()),
            },
        }
    }

    /// The purchase's hop on the owner's chain.
    pub fn buy_get_price(&self, chain: ChainId, m4: M4, cur_owner: ChainId) -> (r: ExecutionResult)
        ensures
            r@ == hop_get_price(self@, chain, m4@, cur_owner).sent,
    {
        match buy_token(&m4) {
            Err(e) => report_to(m4, chain, e.text()),
            Ok(token_id) => match self.get_price(token_id) {
                Ok(price) => {
                    let buyer = m4.original_chain;
                    ExecutionResult::with_authenticated_message(
                        buyer,
                        Message::Buy_BackToPay { m4, cur_owner, price },
                    )
                },
                Err(e) => report_to(m4, chain, e.text()),
            },
        }
    }

    /// The purchase's hop back on the buyer's chain.
    pub fn buy_back_to_pay(&mut self, chain: ChainId, m4: M4, cur_owner: ChainId, price: Amount) -> (r:
        ExecutionResult)
        ensures
            final(self)@ == hop_back_to_pay(old(self)@, chain, m4@, cur_owner, price).state,
            r@ == hop_back_to_pay(old(self)@, chain, m4@, cur_owner, price).sent,
    {
        match buy_token(&m4) {
            Err(e) => report_to(m4, chain, e.text()),
            Ok(token_id) => match self.debit(price) {
                Ok(_) => ExecutionResult::with_authenticated_message(
                    cur_owner,
                    Message::Buy_ReceivePayment { m4, cur_owner, price },
                ),
                Err(e) => report_to(m4, chain, e.text()),
            },
        }
    }

    /// The purchase's hop on the seller's chain, given the price in bytes or
    /// the lack of them.
    pub fn buy_receive_payment(
        &mut self,
        chain: ChainId,
        m4: M4,
        cur_owner: ChainId,
        price: Amount,
        payload: Option<Vec<u8>>,
    ) -> (r: ExecutionResult)
        ensures
            final(self)@ == hop_receive_payment(
                old(self)@,
                chain,
                m4@,
                cur_owner,
                price,
                spec_bytes_of(payload),
            ).state,
            r@ == hop_receive_payment(
                old(self)@,
                chain,
                m4@,
                cur_owner,
                price,
                spec_bytes_of(payload),
            ).sent,
    {
        match buy_token(&m4) {
            Err(e) => report_to(m4, chain, e.text()),
            Ok(token_id) => {
                self.credit(price);
                let buyer = m4.original_chain;
                match payload {
                    Some(data) => ExecutionResult::with_authenticated_message(
                        cur_owner,
                        Message::SafeTransferFrom { from: cur_owner, to: buyer, token_id, data },
                    ),
                    None => ExecutionResult::with_authenticated_message(
                        buyer,
                        Message::Buy_ReceiveRollbackPayment { m4, cur_owner, price },
                    ),
                }
            },
        }
    }

    /// The purchase's hop that pays the buyer back.
    pub fn buy_receive_rollback_payment(
        &mut self,
        chain: ChainId,
        m4: M4,
        cur_owner: ChainId,
        price: Amount,
    ) -> (r: ExecutionResult)
        ensures
            final(self)@ == hop_receive_rollback_payment(
                old(self)@,
                chain,
                m4@,
                cur_owner,
                price,
            ).state,
            r@ == hop_receive_rollback_payment(old(self)@, chain, m4@, cur_owner, price).sent,
    {
        match buy_token(&m4) {
            Err(e) => report_to(m4, chain, e.text()),
            Ok(token_id) => {
                self.credit(price);
                report_to(m4, chain, Error::BcsPriceError.text())
            },
        }
    }

    /// The accrual's hop on the company's chain.
    pub fn receive_company(&mut self, m4: M4, stream_id: &StreamId, host: &MessageHost) -> (r:
        ExecutionResult)
        ensures
            final(self)@ == hop_company(old(self)@, m4@, stream_id@, host@).state,
            r@ == hop_company(old(self)@, m4@, stream_id@, host@).sent,
    {
        match receive_token(&m4) {
            Err(e) => report_to(m4, host.chain_id, e.text()),
            Ok(token_id) => {
                let asker = m4.original_chain;
                match self.handle_receive(stream_id, asker, host.system_time, &host.feed) {
                    Ok(amount) => report_to(m4, host.chain_id, success_text()),
                    Err(e) => report_to(m4, host.chain_id, e.text()),
                }
            },
        }
    }

    /// The transfer's first hop.
    pub fn safe_transfer_from(
        &self,
        chain: ChainId,
        context: &MessageContext,
        from: ChainId,
        to: ChainId,
        token_id: TokenId,
        data: Vec<u8>,
    ) -> (r: ExecutionResult)
        ensures
            r@ == hop_safe_transfer_from(self@, chain, *context, from, to, token_id, data@).sent,
    {
        let m4 = M4::of_message(
            chain,
            ActualMessage::SafeTransferFrom { from, to, token_id, data },
            *context,
        );
        if from != chain {
            report_to(m4, chain, Error::NotAnOperatorNorApproved.text())
        } else {
            ExecutionResult::with_authenticated_message(
                from,
                Message::SafeTransferFrom_CheckOwn { m4, sender: chain },
            )
        }
    }

    /// The transfer's hop that checks that the giving chain holds the token.
    pub fn transfer_check_own(&self, chain: ChainId, m4: M4, sender: ChainId) -> (r: ExecutionResult)
        ensures
            r@ == hop_check_own(self@, chain, m4@, sender).sent,
    {
        match transfer_parts(&m4) {
            Err(e) => report_to(m4, chain, e.text()),
            Ok(parts) => if self.check_own(parts.token_id) {
                ExecutionResult::with_authenticated_message(
                    parts.from,
                    Message::SafeTransferFrom_TransferFrom { m4, sender, own: true },
                )
            } else {
                report_to(m4, chain, Error::DoesNotOwnToken.text())
            },
        }
    }

    /// The transfer's hop on the giving chain.
    pub fn transfer_from(&mut self, chain: ChainId, m4: M4, sender: ChainId, own: bool) -> (r:
        ExecutionResult)
        ensures
            final(self)@ == hop_transfer_from(old(self)@, chain, m4@, sender, own).state,
            r@ == hop_transfer_from(old(self)@, chain, m4@, sender, own).sent,
    {
        match transfer_parts(&m4) {
            Err(e) => report_to(m4, chain, e.text()),
            Ok(parts) => {
                let token = self.transfer_from_me(chain, parts.token_id);
                ExecutionResult::with_authenticated_message(
                    parts.to,
                    Message::SafeTransferFrom_TransferTo { m4, sender, own, token },
                )
            },
        }
    }

    /// The transfer's hop on the receiving chain.
    pub fn transfer_to(&mut self, chain: ChainId, m4: M4, sender: ChainId, own: bool, token: Token) -> (r:
        ExecutionResult)
        ensures
            final(self)@ == hop_transfer_to(old(self)@, chain, m4@, sender, own, token@).state,
            r@ == hop_transfer_to(old(self)@, chain, m4@, sender, own, token@).sent,
    {
        match transfer_parts(&m4) {
            Err(e) => report_to(m4, chain, e.text()),
            Ok(parts) => {
                self.transfer_to_me(&token);
                ExecutionResult::with_authenticated_message(
                    parts.token_id.minted_chain,
                    Message::SafeTransferFrom_UpdateMintedChain { m4, sender, own, token },
                )
            },
        }
    }

    /// The transfer's hop on the minting chain.
    pub fn transfer_update(
        &mut self,
        chain: ChainId,
        m4: M4,
        sender: ChainId,
        own: bool,
        token: Token,
    ) -> (r: ExecutionResult)
        ensures
            final(self)@ == hop_update_minted(old(self)@, chain, m4@, sender, own, token@).state,
            r@ == hop_update_minted(old(self)@, chain, m4@, sender, own, token@).sent,
    {
        match transfer_parts(&m4) {
            Err(e) => report_to(m4, chain, e.text()),
            Ok(parts) => {
                self.transfer_update_minted(parts.token_id, parts.to);
                ExecutionResult::with_authenticated_message(
                    parts.to,
                    Message::SafeTransferFrom_OnERC721Received { m4, sender, own, token },
                )
            },
        }
    }

    /// The transfer's last hop, given the receipt that was acknowledged and
    /// the one computed again.
    pub fn conclude_transfer(
        &self,
        chain: ChainId,
        m4: M4,
        acknowledged: Option<Vec<u8>>,
        computed: Option<Vec<u8>>,
    ) -> (r: ExecutionResult)
        ensures
            r@ == hop_on_received(
                self@,
                chain,
                m4@,
                spec_bytes_of(acknowledged),
                spec_bytes_of(computed),
            ).sent,
    {
        match transfer_parts(&m4) {
            Err(e) => report_to(m4, chain, e.text()),
            Ok(parts) => report_to(m4, chain, verdict(&acknowledged, &computed)),
        }
    }

    /// The arrival of a report.
    pub fn receive_result(
        &self,
        chain: ChainId,
        context: &MessageContext,
        m4: M4,
        origin: ChainId,
        result: String,
    ) -> (r: ExecutionResult)
        ensures
            r@ == hop_result(self@, chain, *context, m4@, origin, result@).sent,
    {
        match m4.original_message {
            Some(ActualMessage::SafeTransferFrom { from, to, token_id, data }) => {
                if text_contains(result.as_str(), "Err") {
                    let fresh = M4::of_message(
                        chain,
                        ActualMessage::Result { origin, result },
                        *context,
                    );
                    match amount_from_bytes(&data) {
                        Some(attos) => ExecutionResult::with_authenticated_message(
                            from,
                            Message::Result_BackToPay {
                                m4: fresh,
                                from,
                                to,
                                price: Amount(attos),
                            },
                        ),
                        None => report_to(fresh, chain, Error::BcsError.text()),
                    }
                } else {
                    ExecutionResult::default()
                }
            },
            _ => ExecutionResult::default(),
        }
    }

    /// The compensation's hop on the chain that gave the token.
    pub fn result_back_to_pay(
        &mut self,
        chain: ChainId,
        m4: M4,
        from: ChainId,
        to: ChainId,
        price: Amount,
    ) -> (r: ExecutionResult)
        ensures
            final(self)@ == hop_result_back_to_pay(old(self)@, chain, m4@, from, to, price).state,
            r@ == hop_result_back_to_pay(old(self)@, chain, m4@, from, to, price).sent,
    {
        match result_carrier(&m4) {
            Err(e) => report_to(m4, chain, e.text()),
            Ok(_) => match self.debit(price) {
                Ok(_) => ExecutionResult::with_authenticated_message(
                    to,
                    Message::Result_ReceivePayment { m4, from, to, price },
                ),
                Err(e) => report_to(m4, chain, e.text()),
            },
        }
    }

    /// The compensation's hop on the chain that was to receive the token.
    pub fn result_receive_payment(
        &mut self,
        chain: ChainId,
        m4: M4,
        from: ChainId,
        to: ChainId,
        price: Amount,
    ) -> (r: ExecutionResult)
        ensures
            final(self)@ == hop_result_receive_payment(
                old(self)@,
                chain,
                m4@,
                from,
                to,
                price,
            ).state,
            r@ == hop_result_receive_payment(old(self)@, chain, m4@, from, to, price).sent,
    {
        match result_carrier(&m4) {
            Err(e) => report_to(m4, chain, e.text()),
            Ok(_) => {
                self.credit(price);
                report_to(m4, chain, success_text())
            },
        }
    }

    /// Executes an incoming message: one hop of a saga. It changes the ledger
    /// as the hop says and sends at most one message onward. It never fails:
    /// what goes wrong in a hop is reported to the chain on which the saga
    /// began.
    pub fn execute_message(&mut self, context: &MessageContext, message: Message, host: &MessageHost) -> (r:
        Result<ExecutionResult, Error>)
        ensures
            final(self)@ == spec_execute_message(old(self)@, *context, message@, host@).state,
            outcome_view(r) == Ok::<Option<OutgoingMessageView>, Error>(
                spec_execute_message(old(self)@, *context, message@, host@).sent,
            ),
    {
        let chain = host.chain_id;
        let sent = match message {
            Message::Default => ExecutionResult::default(),
            Message::SafeTransferFrom { from, to, token_id, data } => self.safe_transfer_from(
                chain,
                context,
                from,
                to,
                token_id,
                data,
            ),
            Message::Result { m4, origin, result } => self.receive_result(
                chain,
                context,
                m4,
                origin,
                result,
            ),
            Message::Buy_GetOwner { m4 } => self.buy_get_owner(chain, m4),
            Message::Buy_GetPrice { m4, cur_owner } => self.buy_get_price(chain, m4, cur_owner),
            Message::Buy_BackToPay { m4, cur_owner, price } => self.buy_back_to_pay(
                chain,
                m4,
                cur_owner,
                price,
            ),
            Message::Buy_ReceivePayment { m4, cur_owner, price } => {
                let payload = amount_to_bytes(price.0);
                self.buy_receive_payment(chain, m4, cur_owner, price, payload)
            },
            Message::Buy_ReceiveRollbackPayment {
                m4,
                cur_owner,
                price,
            } => self.buy_receive_rollback_payment(chain, m4, cur_owner, price),
            Message::Receive_Company { m4, metadata, stream_id } => self.receive_company(
                m4,
                &stream_id,
                host,
            ),
            Message::SafeTransferFrom_CheckOwn { m4, sender } => self.transfer_check_own(
                chain,
                m4,
                sender,
            ),
            Message::SafeTransferFrom_TransferFrom { m4, sender, own } => self.transfer_from(
                chain,
                m4,
                sender,
                own,
            ),
            Message::SafeTransferFrom_TransferTo { m4, sender, own, token } => self.transfer_to(
                chain,
                m4,
                sender,
                own,
                token,
            ),
            Message::SafeTransferFrom_UpdateMintedChain {
                m4,
                sender,
                own,
                token,
            } => self.transfer_update(chain, m4, sender, own, token),
            Message::SafeTransferFrom_OnERC721Received { m4, sender, own, token } => {
                match transfer_parts(&m4) {
                    Ok(parts) => {
                        let acknowledged = match Self::on_erc721_received(
                            &parts.from,
                            &parts.to,
                            &parts.token_id,
                            &parts.data,
                        ) {
                            Ok(bytes) => Some(bytes),
                            Err(e) => None,
                        };
                        let computed = receipt_to_bytes(
                            &parts.from,
                            &parts.to,
                            &parts.token_id,
                            &parts.data,
                        );
                        self.conclude_transfer(chain, m4, acknowledged, computed)
                    },
                    Err(e) => self.conclude_transfer(chain, m4, None, None),
                }
            },
            Message::Result_BackToPay { m4, from, to, price } => self.result_back_to_pay(
                chain,
                m4,
                from,
                to,
                price,
            ),
            Message::Result_ReceivePayment { m4, from, to, price } => self.result_receive_payment(
                chain,
                m4,
                from,
                to,
                price,
            ),
        };
        Ok(sent)
    }
}

} // verus!
