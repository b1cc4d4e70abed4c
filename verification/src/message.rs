//! What travels: the operations a user issues, the messages that chains send
//! one another, and the context that every hop of a saga carries along.

use crate::types::{
    clone_segments, clone_strings, texts, Amount, ChainId, CryptoHash, Segment, StreamId, StreamIdView, Token,
    TokenId, TokenMetadata, TokenMetadataView, TokenView,
};
use vstd::prelude::*;

verus! {

/// Which message of which block of which chain a message is.
#[derive(Clone, Copy, Debug, PartialEq, Eq, Structural)]
pub struct MessageId {
    pub chain_id: ChainId,
    pub height: u64,
    pub index: u32,
}

/// Where and when a user's operation runs: the chain, who signed for it, the
/// block, and the operation's place in the block.
#[derive(Clone, Copy, Debug, PartialEq, Eq, Structural)]
pub struct OperationContext {
    pub chain_id: ChainId,
    pub authenticated_signer: Option<CryptoHash>,
    pub height: u64,
    pub index: u32,
}

/// Where and when an incoming message runs: the chain, who signed for it, the
/// block, the certificate of the block that sent it, and which message it is.
#[derive(Clone, Copy, Debug, PartialEq, Eq, Structural)]
pub struct MessageContext {
    pub chain_id: ChainId,
    pub authenticated_signer: Option<CryptoHash>,
    pub height: u64,
    pub certificate_hash: CryptoHash,
    pub message_id: MessageId,
}

/// What a user can ask of the chain it operates.
#[derive(Debug, PartialEq, Eq)]
pub enum Operation {
    Mint { name: String, description: String, keywords: Vec<String>, segments: Vec<Segment> },
    Burn { token_id: TokenId },
    List { token_id: TokenId, amount: Amount },
    Cancel { token_id: TokenId },
    Buy { token_id: TokenId },
    Receive { token_id: TokenId },
    Income { amount: Amount, keyword: String },
}

pub enum OperationView {
    Mint {
        name: Seq<char>,
        description: Seq<char>,
        keywords: Seq<Seq<char>>,
        segments: Seq<Segment>,
    },
    Burn { token_id: TokenId },
    List { token_id: TokenId, amount: Amount },
    Cancel { token_id: TokenId },
    Buy { token_id: TokenId },
    Receive { token_id: TokenId },
    Income { amount: Amount, keyword: Seq<char> },
}

impl View for Operation {
    type V = OperationView;

    open spec fn view(&self) -> OperationView {
        match *self {
            Operation::Mint { name, description, keywords, segments } => OperationView::Mint {
                name: name@,
                description: description@,
                keywords: texts(keywords@),
                segments: segments@,
            },
            Operation::Burn { token_id } => OperationView::Burn { token_id },
            Operation::List { token_id, amount } => OperationView::List { token_id, amount },
            Operation::Cancel { token_id } => OperationView::Cancel { token_id },
            Operation::Buy { token_id } => OperationView::Buy { token_id },
            Operation::Receive { token_id } => OperationView::Receive { token_id },
            Operation::Income { amount, keyword } => OperationView::Income {
                amount,
                keyword: keyword@,
            },
        }
    }
}

impl Clone for Operation {
    fn clone(&self) -> (r: Operation)
        ensures
            r@ == self@,
    {
        match self {
            Operation::Mint { name, description, keywords, segments } => Operation::Mint {
                name: name.clone(),
                description: description.clone(),
                keywords: clone_strings(keywords),
                segments: clone_segments(segments),
            },
            Operation::Burn { token_id } => Operation::Burn { token_id: *token_id },
            Operation::List { token_id, amount } => Operation::List {
                token_id: *token_id,
                amount: *amount,
            },
            Operation::Cancel { token_id } => Operation::Cancel { token_id: *token_id },
            Operation::Buy { token_id } => Operation::Buy { token_id: *token_id },
            Operation::Receive { token_id } => Operation::Receive { token_id: *token_id },
            Operation::Income { amount, keyword } => Operation::Income {
                amount: *amount,
                keyword: keyword.clone(),
            },
        }
    }
}

/// The message that began a saga, kept in the saga's context.
#[derive(Debug, PartialEq, Eq)]
pub enum ActualMessage {
    SafeTransferFrom { from: ChainId, to: ChainId, token_id: TokenId, data: Vec<u8> },
    Result { origin: ChainId, result: String },
}

pub enum ActualMessageView {
    SafeTransferFrom { from: ChainId, to: ChainId, token_id: TokenId, data: Seq<u8> },
    Result { origin: ChainId, result: Seq<char> },
}

impl View for ActualMessage {
    type V = ActualMessageView;

    open spec fn view(&self) -> ActualMessageView {
        match *self {
            ActualMessage::SafeTransferFrom {
                from,
                to,
                token_id,
                data,
            } => ActualMessageView::SafeTransferFrom { from, to, token_id, data: data@ },
            ActualMessage::Result { origin, result } => ActualMessageView::Result {
                origin,
                result: result@,
            },
        }
    }
}

/// A copy of a list of bytes.
pub fn clone_bytes(bytes: &Vec<u8>) -> (r: Vec<u8>)
    ensures
        r@ == bytes@,
{
    let mut out: Vec<u8> = Vec::new();
    let mut i: usize = 0;
    while i < bytes.len()
        invariant
            i <= bytes.len(),
            out.len() == i,
            forall|j: int| 0 <= j < i ==> out[j] == bytes[j],
        decreases bytes.len() - i,
    {
        out.push(bytes[i]);
        i += 1;
    }
    assert(out@ =~= bytes@);
    out
}

impl Clone for ActualMessage {
    fn clone(&self) -> (r: ActualMessage)
        ensures
            r@ == self@,
    {
        match self {
            ActualMessage::SafeTransferFrom {
                from,
                to,
                token_id,
                data,
            } => ActualMessage::SafeTransferFrom {
                from: *from,
                to: *to,
                token_id: *token_id,
                data: clone_bytes(data),
            },
            ActualMessage::Result { origin, result } => ActualMessage::Result {
                origin: *origin,
                result: result.clone(),
            },
        }
    }
}

/// The context of a saga. It is made once, at the saga's first hop, names the
/// chain on which the saga began and the request that began it, and is then
/// carried unchanged by every message of the saga, so that any hop can report
/// back. Of `original_operation` and `original_message` a saga fills one.
#[derive(Debug, PartialEq, Eq)]
pub struct M4 {
    pub original_chain: ChainId,
    pub original_operation: Option<Operation>,
    pub original_ope_context: Option<OperationContext>,
    pub original_message: Option<ActualMessage>,
    pub original_msg_context: Option<MessageContext>,
}

pub struct M4View {
    pub original_chain: ChainId,
    pub original_operation: Option<OperationView>,
    pub original_ope_context: Option<OperationContext>,
    pub original_message: Option<ActualMessageView>,
    pub original_msg_context: Option<MessageContext>,
}

impl View for M4 {
    type V = M4View;

    open spec fn view(&self) -> M4View {
        M4View {
            original_chain: self.original_chain,
            original_operation: match self.original_operation {
                Some(operation) => Some(operation@),
                None => None,
            },
            original_ope_context: self.original_ope_context,
            original_message: match self.original_message {
                Some(message) => Some(message@),
                None => None,
            },
            original_msg_context: self.original_msg_context,
        }
    }
}

impl Clone for M4 {
    fn clone(&self) -> (r: M4)
        ensures
            r@ == self@,
    {
        M4 {
            original_chain: self.original_chain,
            original_operation: match &self.original_operation {
                Some(operation) => Some(operation.clone()),
                None => None,
            },
            original_ope_context: self.original_ope_context,
            original_message: match &self.original_message {
                Some(message) => Some(message.clone()),
                None => None,
            },
            original_msg_context: self.original_msg_context,
        }
    }
}

impl M4 {
    /// The context of a saga that a user's operation begins.
    pub open spec fn spec_of_operation(
        chain: ChainId,
        operation: OperationView,
        context: OperationContext,
    ) -> M4View {
        M4View {
            original_chain: chain,
            original_operation: Some(operation),
            original_ope_context: Some(context),
            original_message: None,
            original_msg_context: None,
        }
    }

    /// The context of a saga that an incoming message begins.
    pub open spec fn spec_of_message(
        chain: ChainId,
        message: ActualMessageView,
        context: MessageContext,
    ) -> M4View {
        M4View {
            original_chain: chain,
            original_operation: None,
            original_ope_context: None,
            original_message: Some(message),
            original_msg_context: Some(context),
        }
    }

    pub fn of_operation(chain: ChainId, operation: Operation, context: OperationContext) -> (r: M4)
        ensures
            r@ == Self::spec_of_operation(chain, operation@, context),
    {
        M4 {
            original_chain: chain,
            original_operation: Some(operation),
            original_ope_context: Some(context),
            original_message: None,
            original_msg_context: None,
        }
    }

    pub fn of_message(chain: ChainId, message: ActualMessage, context: MessageContext) -> (r: M4)
        ensures
            r@ == Self::spec_of_message(chain, message@, context),
    {
        M4 {
            original_chain: chain,
            original_operation: None,
            original_ope_context: None,
            original_message: Some(message),
            original_msg_context: Some(context),
        }
    }
}

/// What one chain sends another. `SafeTransferFrom` begins a transfer; the
/// variants whose names begin with `Buy`, `Receive`, `SafeTransferFrom_` and
/// `Result_` are the hops of the purchase, of the accrual, of the transfer and
/// of the compensation; `Result` ends a saga and reports to the chain on which
/// it began.
#[derive(Debug, Default, PartialEq, Eq)]
pub enum Message {
    #[default]
    Default,
    SafeTransferFrom { from: ChainId, to: ChainId, token_id: TokenId, data: Vec<u8> },
    Result { m4: M4, origin: ChainId, result: String },
    Buy_GetOwner { m4: M4 },
    Buy_GetPrice { m4: M4, cur_owner: ChainId },
    Buy_BackToPay { m4: M4, cur_owner: ChainId, price: Amount },
    Buy_ReceivePayment { m4: M4, cur_owner: ChainId, price: Amount },
    Buy_ReceiveRollbackPayment { m4: M4, cur_owner: ChainId, price: Amount },
    Receive_Company { m4: M4, metadata: TokenMetadata, stream_id: StreamId },
    SafeTransferFrom_CheckOwn { m4: M4, sender: ChainId },
    SafeTransferFrom_TransferFrom { m4: M4, sender: ChainId, own: bool },
    SafeTransferFrom_TransferTo { m4: M4, sender: ChainId, own: bool, token: Token },
    SafeTransferFrom_UpdateMintedChain { m4: M4, sender: ChainId, own: bool, token: Token },
    SafeTransferFrom_OnERC721Received { m4: M4, sender: ChainId, own: bool, token: Token },
    Result_BackToPay { m4: M4, from: ChainId, to: ChainId, price: Amount },
    Result_ReceivePayment { m4: M4, from: ChainId, to: ChainId, price: Amount },
}

pub enum MessageView {
    Default,
    SafeTransferFrom { from: ChainId, to: ChainId, token_id: TokenId, data: Seq<u8> },
    Result { m4: M4View, origin: ChainId, result: Seq<char> },
    Buy_GetOwner { m4: M4View },
    Buy_GetPrice { m4: M4View, cur_owner: ChainId },
    Buy_BackToPay { m4: M4View, cur_owner: ChainId, price: Amount },
    Buy_ReceivePayment { m4: M4View, cur_owner: ChainId, price: Amount },
    Buy_ReceiveRollbackPayment { m4: M4View, cur_owner: ChainId, price: Amount },
    Receive_Company { m4: M4View, metadata: TokenMetadataView, stream_id: StreamIdView },
    SafeTransferFrom_CheckOwn { m4: M4View, sender: ChainId },
    SafeTransferFrom_TransferFrom { m4: M4View, sender: ChainId, own: bool },
    SafeTransferFrom_TransferTo { m4: M4View, sender: ChainId, own: bool, token: TokenView },
    SafeTransferFrom_UpdateMintedChain { m4: M4View, sender: ChainId, own: bool, token: TokenView },
    SafeTransferFrom_OnERC721Received { m4: M4View, sender: ChainId, own: bool, token: TokenView },
    Result_BackToPay { m4: M4View, from: ChainId, to: ChainId, price: Amount },
    Result_ReceivePayment { m4: M4View, from: ChainId, to: ChainId, price: Amount },
}

impl View for Message {
    type V = MessageView;

    open spec fn view(&self) -> MessageView {
        match *self {
            Message::Default => MessageView::Default,
            Message::SafeTransferFrom { from, to, token_id, data } => MessageView::SafeTransferFrom {
                from,
                to,
                token_id,
                data: data@,
            },
            Message::Result { m4, origin, result } => MessageView::Result {
                m4: m4@,
                origin,
                result: result@,
            },
            Message::Buy_GetOwner { m4 } => MessageView::Buy_GetOwner { m4: m4@ },
            Message::Buy_GetPrice { m4, cur_owner } => MessageView::Buy_GetPrice {
                m4: m4@,
                cur_owner,
            },
            Message::Buy_BackToPay { m4, cur_owner, price } => MessageView::Buy_BackToPay {
                m4: m4@,
                cur_owner,
                price,
            },
            Message::Buy_ReceivePayment {
                m4,
                cur_owner,
                price,
            } => MessageView::Buy_ReceivePayment { m4: m4@, cur_owner, price },
            Message::Buy_ReceiveRollbackPayment {
                m4,
                cur_owner,
                price,
            } => MessageView::Buy_ReceiveRollbackPayment { m4: m4@, cur_owner, price },
            Message::Receive_Company { m4, metadata, stream_id } => MessageView::Receive_Company {
                m4: m4@,
                metadata: metadata@,
                stream_id: stream_id@,
            },
            Message::SafeTransferFrom_CheckOwn {
                m4,
                sender,
            } => MessageView::SafeTransferFrom_CheckOwn { m4: m4@, sender },
            Message::SafeTransferFrom_TransferFrom {
                m4,
                sender,
                own,
            } => MessageView::SafeTransferFrom_TransferFrom { m4: m4@, sender, own },
            Message::SafeTransferFrom_TransferTo {
                m4,
                sender,
                own,
                token,
            } => MessageView::SafeTransferFrom_TransferTo { m4: m4@, sender, own, token: token@ },
            Message::SafeTransferFrom_UpdateMintedChain {
                m4,
                sender,
                own,
                token,
            } => MessageView::SafeTransferFrom_UpdateMintedChain {
                m4: m4@,
                sender,
                own,
                token: token@,
            },
            Message::SafeTransferFrom_OnERC721Received {
                m4,
                sender,
                own,
                token,
            } => MessageView::SafeTransferFrom_OnERC721Received {
                m4: m4@,
                sender,
                own,
                token: token@,
            },
            Message::Result_BackToPay { m4, from, to, price } => MessageView::Result_BackToPay {
                m4: m4@,
                from,
                to,
                price,
            },
            Message::Result_ReceivePayment {
                m4,
                from,
                to,
                price,
            } => MessageView::Result_ReceivePayment { m4: m4@, from, to, price },
        }
    }
}

impl Clone for Message {
    fn clone(&self) -> (r: Message)
        ensures
            r@ == self@,
    {
        match self {
            Message::Default => Message::Default,
            Message::SafeTransferFrom { from, to, token_id, data } => Message::SafeTransferFrom {
                from: *from,
                to: *to,
                token_id: *token_id,
                data: clone_bytes(data),
            },
            Message::Result { m4, origin, result } => Message::Result {
                m4: m4.clone(),
                origin: *origin,
                result: result.clone(),
            },
            Message::Buy_GetOwner { m4 } => Message::Buy_GetOwner { m4: m4.clone() },
            Message::Buy_GetPrice { m4, cur_owner } => Message::Buy_GetPrice {
                m4: m4.clone(),
                cur_owner: *cur_owner,
            },
            Message::Buy_BackToPay { m4, cur_owner, price } => Message::Buy_BackToPay {
                m4: m4.clone(),
                cur_owner: *cur_owner,
                price: *price,
            },
            Message::Buy_ReceivePayment { m4, cur_owner, price } => Message::Buy_ReceivePayment {
                m4: m4.clone(),
                cur_owner: *cur_owner,
                price: *price,
            },
            Message::Buy_ReceiveRollbackPayment {
                m4,
                cur_owner,
                price,
            } => Message::Buy_ReceiveRollbackPayment {
                m4: m4.clone(),
                cur_owner: *cur_owner,
                price: *price,
            },
            Message::Receive_Company { m4, metadata, stream_id } => Message::Receive_Company {
                m4: m4.clone(),
                metadata: metadata.clone(),
                stream_id: stream_id.clone(),
            },
            Message::SafeTransferFrom_CheckOwn { m4, sender } => Message::SafeTransferFrom_CheckOwn {
                m4: m4.clone(),
                sender: *sender,
            },
            Message::SafeTransferFrom_TransferFrom {
                m4,
                sender,
                own,
            } => Message::SafeTransferFrom_TransferFrom {
                m4: m4.clone(),
                sender: *sender,
                own: *own,
            },
            Message::SafeTransferFrom_TransferTo {
                m4,
                sender,
                own,
                token,
            } => Message::SafeTransferFrom_TransferTo {
                m4: m4.clone(),
                sender: *sender,
                own: *own,
                token: token.clone(),
            },
            Message::SafeTransferFrom_UpdateMintedChain {
                m4,
                sender,
                own,
                token,
            } => Message::SafeTransferFrom_UpdateMintedChain {
                m4: m4.clone(),
                sender: *sender,
                own: *own,
                token: token.clone(),
            },
            Message::SafeTransferFrom_OnERC721Received {
                m4,
                sender,
                own,
                token,
            } => Message::SafeTransferFrom_OnERC721Received {
                m4: m4.clone(),
                sender: *sender,
                own: *own,
                token: token.clone(),
            },
            Message::Result_BackToPay { m4, from, to, price } => Message::Result_BackToPay {
                m4: m4.clone(),
                from: *from,
                to: *to,
                price: *price,
            },
            Message::Result_ReceivePayment {
                m4,
                from,
                to,
                price,
            } => Message::Result_ReceivePayment {
                m4: m4.clone(),
                from: *from,
                to: *to,
                price: *price,
            },
        }
    }
}

/// A message together with the chain it is addressed to. Every message is
/// sent as coming from the chain that made it.
#[derive(Debug, PartialEq, Eq)]
pub struct OutgoingMessage {
    pub destination: ChainId,
    pub message: Message,
}

pub struct OutgoingMessageView {
    pub destination: ChainId,
    pub message: MessageView,
}

impl View for OutgoingMessage {
    type V = OutgoingMessageView;

    open spec fn view(&self) -> OutgoingMessageView {
        OutgoingMessageView { destination: self.destination, message: self.message@ }
    }
}

/// What one step sends: one addressed message, or nothing.
#[derive(Debug, PartialEq, Eq)]
pub struct ExecutionResult {
    pub message: Option<OutgoingMessage>,
}

impl View for ExecutionResult {
    type V = Option<OutgoingMessageView>;

    open spec fn view(&self) -> Option<OutgoingMessageView> {
        match self.message {
            Some(outgoing) => Some(outgoing@),
            None => None,
        }
    }
}

impl ExecutionResult {
    /// A result that sends nothing.
    pub fn default() -> (r: ExecutionResult)
        ensures
            r@ == None::<OutgoingMessageView>,
    {
        ExecutionResult { message: None }
    }

    /// A result that sends `message` to `destination`.
    pub fn with_authenticated_message(destination: ChainId, message: Message) -> (r:
        ExecutionResult)
        ensures
            r@ == Some(OutgoingMessageView { destination, message: message@ }),
    {
        ExecutionResult { message: Some(OutgoingMessage { destination, message }) }
    }
}

} // verus!
