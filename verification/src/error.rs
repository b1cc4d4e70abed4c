//! What can go wrong in a step, and the text under which a saga reports it.

use crate::codec::{contains_text, occurs_at};
use vstd::prelude::*;

verus! {

/// A failure of one step. A saga does not raise it: the hop at which it
/// happens reports its text to the chain on which the saga began.
#[derive(Clone, Copy, Debug, PartialEq, Eq, Structural)]
pub enum Error {
    /// A payload could not be written as bytes, or read back from them.
    BcsError,
    /// A text could not be written as, or read back from, its structured form.
    JsonError,
    /// The token is not listed for sale on this chain.
    TokenNotListedError,
    /// The balance falls short of the amount to take from it.
    InsufficientBalanceError,
    /// The company's chain holds no stream of this identity.
    CompanyDoesntHaveStreamError,
    /// The minting chain names no owner for the token.
    NoOwnerInMintedError,
    /// This chain does not hold the token.
    ThisChainDoesNotOwnThisTokenError,
    /// The saga's context does not hold the operation that the hop belongs to.
    M4MismatchedOperationError,
    /// The saga's context does not hold the operation's context.
    M4MismatchedOperationContextError,
    /// The saga's context does not hold the message that the hop belongs to.
    M4MismatchedMessageError,
    /// The saga's context does not hold the message's context.
    M4MismatchedMessageContextError,
    /// A transfer was asked of a chain other than the one that gives the token.
    NotAnOperatorNorApproved,
    /// The chain that is to give the token does not hold it.
    DoesNotOwnToken,
    /// The receipt recomputed after a transfer differs from the one acknowledged.
    AfterTransferCheckFailed,
    /// The price could not be written as the payload of the transfer.
    BcsPriceError,
}

/// The text with which a hop reports that all went well.
pub open spec fn spec_success_text() -> Seq<char> {
    "Ok(ExecutionResult :: default ())"@
}

/// The mark by which a report is known to tell of a failure.
pub open spec fn spec_failure_mark() -> Seq<char> {
    "Err"@
}

pub fn success_text() -> (r: String)
    ensures
        r@ == spec_success_text(),
{
    "Ok(ExecutionResult :: default ())".to_owned()
}

impl Error {
    /// The text under which the failure is reported.
    pub open spec fn spec_text(self) -> Seq<char> {
        match self {
            Error::BcsError => "Err(Error :: BcsError)"@,
            Error::JsonError => "Err(Error :: JsonError)"@,
            Error::TokenNotListedError => "TokenNotListedError"@,
            Error::InsufficientBalanceError => "InsufficientBalanceError"@,
            Error::CompanyDoesntHaveStreamError => "CompanyDoesntHaveStreamError"@,
            Error::NoOwnerInMintedError => "NoOwnerInMintedError"@,
            Error::ThisChainDoesNotOwnThisTokenError => "ThisChainDoesNotOwnThisTokenError"@,
            Error::M4MismatchedOperationError => "M4MismatchedOperationError"@,
            Error::M4MismatchedOperationContextError => "M4MismatchedOperationContextError"@,
            Error::M4MismatchedMessageError => "M4MismatchedMessageError"@,
            Error::M4MismatchedMessageContextError => "M4MismatchedMessageContextError"@,
            Error::NotAnOperatorNorApproved => "Err(Error :: NotAnOperatorNorApproved)"@,
            Error::DoesNotOwnToken => "Err(Error :: DoesNotOwnToken)"@,
            Error::AfterTransferCheckFailed => "Err(Error :: AfterTransferCheckFailed)"@,
            Error::BcsPriceError => "Err(Error :: BcsPriceError)"@,
        }
    }

    pub fn text(&self) -> (r: String)
        ensures
            r@ == self.spec_text(),
    {
        match self {
            Error::BcsError => "Err(Error :: BcsError)".to_owned(),
            Error::JsonError => "Err(Error :: JsonError)".to_owned(),
            Error::TokenNotListedError => "TokenNotListedError".to_owned(),
            Error::InsufficientBalanceError => "InsufficientBalanceError".to_owned(),
            Error::CompanyDoesntHaveStreamError => "CompanyDoesntHaveStreamError".to_owned(),
            Error::NoOwnerInMintedError => "NoOwnerInMintedError".to_owned(),
            Error::ThisChainDoesNotOwnThisTokenError => "ThisChainDoesNotOwnThisTokenError".to_owned(),
            Error::M4MismatchedOperationError => "M4MismatchedOperationError".to_owned(),
            Error::M4MismatchedOperationContextError => "M4MismatchedOperationContextError".to_owned(),
            Error::M4MismatchedMessageError => "M4MismatchedMessageError".to_owned(),
            Error::M4MismatchedMessageContextError => "M4MismatchedMessageContextError".to_owned(),
            Error::NotAnOperatorNorApproved => "Err(Error :: NotAnOperatorNorApproved)".to_owned(),
            Error::DoesNotOwnToken => "Err(Error :: DoesNotOwnToken)".to_owned(),
            Error::AfterTransferCheckFailed => "Err(Error :: AfterTransferCheckFailed)".to_owned(),
            Error::BcsPriceError => "Err(Error :: BcsPriceError)".to_owned(),
        }
    }

    /// Every failure's text carries the failure mark.
    pub proof fn lemma_text_is_marked(self)
        ensures
            contains_text(self.spec_text(), spec_failure_mark()),
    {
        reveal_strlit("Err");
        match self {
            Error::BcsError => {
                reveal_strlit("Err(Error :: BcsError)");
                assert(self.spec_text().subrange(0, 3) =~= spec_failure_mark());
                assert(occurs_at(self.spec_text(), spec_failure_mark(), 0));
            },
            Error::JsonError => {
                reveal_strlit("Err(Error :: JsonError)");
                assert(self.spec_text().subrange(0, 3) =~= spec_failure_mark());
                assert(occurs_at(self.spec_text(), spec_failure_mark(), 0));
            },
            Error::TokenNotListedError => {
                reveal_strlit("TokenNotListedError");
                assert(self.spec_text().subrange(14, 17) =~= spec_failure_mark());
                assert(occurs_at(self.spec_text(), spec_failure_mark(), 14));
            },
            Error::InsufficientBalanceError => {
                reveal_strlit("InsufficientBalanceError");
                assert(self.spec_text().subrange(19, 22) =~= spec_failure_mark());
                assert(occurs_at(self.spec_text(), spec_failure_mark(), 19));
            },
            Error::CompanyDoesntHaveStreamError => {
                reveal_strlit("CompanyDoesntHaveStreamError");
                assert(self.spec_text().subrange(23, 26) =~= spec_failure_mark());
                assert(occurs_at(self.spec_text(), spec_failure_mark(), 23));
            },
            Error::NoOwnerInMintedError => {
                reveal_strlit("NoOwnerInMintedError");
                assert(self.spec_text().subrange(15, 18) =~= spec_failure_mark());
                assert(occurs_at(self.spec_text(), spec_failure_mark(), 15));
            },
            Error::ThisChainDoesNotOwnThisTokenError => {
                reveal_strlit("ThisChainDoesNotOwnThisTokenError");
                assert(self.spec_text().subrange(28, 31) =~= spec_failure_mark());
                assert(occurs_at(self.spec_text(), spec_failure_mark(), 28));
            },
            Error::M4MismatchedOperationError => {
                reveal_strlit("M4MismatchedOperationError");
                assert(self.spec_text().subrange(21, 24) =~= spec_failure_mark());
                assert(occurs_at(self.spec_text(), spec_failure_mark(), 21));
            },
            Error::M4MismatchedOperationContextError => {
                reveal_strlit("M4MismatchedOperationContextError");
                assert(self.spec_text().subrange(28, 31) =~= spec_failure_mark());
                assert(occurs_at(self.spec_text(), spec_failure_mark(), 28));
            },
            Error::M4MismatchedMessageError => {
                reveal_strlit("M4MismatchedMessageError");
                assert(self.spec_text().subrange(19, 22) =~= spec_failure_mark());
                assert(occurs_at(self.spec_text(), spec_failure_mark(), 19));
            },
            Error::M4MismatchedMessageContextError => {
                reveal_strlit("M4MismatchedMessageContextError");
                assert(self.spec_text().subrange(26, 29) =~= spec_failure_mark());
                assert(occurs_at(self.spec_text(), spec_failure_mark(), 26));
            },
            Error::NotAnOperatorNorApproved => {
                reveal_strlit("Err(Error :: NotAnOperatorNorApproved)");
                assert(self.spec_text().subrange(0, 3) =~= spec_failure_mark());
                assert(occurs_at(self.spec_text(), spec_failure_mark(), 0));
            },
            Error::DoesNotOwnToken => {
                reveal_strlit("Err(Error :: DoesNotOwnToken)");
                assert(self.spec_text().subrange(0, 3) =~= spec_failure_mark());
                assert(occurs_at(self.spec_text(), spec_failure_mark(), 0));
            },
            Error::AfterTransferCheckFailed => {
                reveal_strlit("Err(Error :: AfterTransferCheckFailed)");
                assert(self.spec_text().subrange(0, 3) =~= spec_failure_mark());
                assert(occurs_at(self.spec_text(), spec_failure_mark(), 0));
            },
            Error::BcsPriceError => {
                reveal_strlit("Err(Error :: BcsPriceError)");
                assert(self.spec_text().subrange(0, 3) =~= spec_failure_mark());
                assert(occurs_at(self.spec_text(), spec_failure_mark(), 0));
            },
        }
    }
}

/// The text for success does not carry the failure mark.
pub proof fn lemma_success_is_unmarked()
    ensures
        !contains_text(spec_success_text(), spec_failure_mark()),
{
    reveal_strlit("Err");
    reveal_strlit("Ok(ExecutionResult :: default ())");
    let text = spec_success_text();
    let mark = spec_failure_mark();
    assert forall|i: int| !occurs_at(text, mark, i) by {
        if occurs_at(text, mark, i) {
            assert(text.subrange(i, i + 3)[0] == 'E');
            assert(text.subrange(i, i + 3)[1] == 'r');
            assert(text[i] == 'E');
            assert(text[i + 1] == 'r');
            assert(i == 3);
        }
    }
}

} // verus!
