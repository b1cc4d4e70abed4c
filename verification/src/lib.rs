//! A marketplace for uniquely identified tokens that runs across independent
//! chains. Chains share nothing and talk only through one-way messages, so a
//! purchase or a transfer is a saga: a chain of hops, each of which commits a
//! local change and sends exactly one message onward. Every hop is a function
//! from the local ledger and the incoming request to the new ledger and the
//! outgoing message, stated over mathematical views of the data.
#![allow(non_camel_case_types)]

pub mod accrual;
pub mod accrual_laws;
pub mod codec;
pub mod contract;
pub mod error;
pub mod laws;
pub mod message;
pub mod state;
pub mod table;
pub mod types;

pub use accrual::{
    accrual_payout, accrual_rate, plan_windows, AccrualCursor, AccrualRun, AccrualWindow,
    WindowFeed, WindowFeedView, RATE_LIMIT, SCALE,
};
pub use codec::{same_bytes, MAX_SEQUENCE_LENGTH};
pub use contract::{
    buy_token, receive_token, report_to, result_carrier, transfer_parts, verdict, MessageHost,
    MessageHostView, OperationHost, OperationHostView, TransferParts, TransferPartsView,
};
pub use error::{success_text, Error};
pub use message::{
    ActualMessage, ActualMessageView, ExecutionResult, M4View, Message, MessageContext,
    MessageId, MessageView, Operation, OperationContext, OperationView, OutgoingMessage,
    OutgoingMessageView, M4,
};
pub use state::{Aqueduct, AqueductView};
pub use table::{Key, Table};
pub use types::{
    Amount, AqueductAbi, ChainId, CryptoHash, Parameter, Segment, Stream, StreamId, StreamIdView, StreamView,
    Token, TokenId, TokenMetadata, TokenMetadataView, TokenView,
};
