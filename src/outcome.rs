//! Reading the broker's outcome of a transactional transfer.

use vstd::prelude::*;
use fe2o3_amqp::transaction::PostError;
use fe2o3_amqp_types::messaging::{Modified, Outcome, Rejected, Released};

verus! {

/// A transfer that the broker did not accept, with the outcome it gave instead.
pub enum NotAcceptedError {
    Rejected(Rejected),
    Released(Released),
    Modified(Modified),
}

/// Failure of a transactional send.
pub enum TransactionSendError {
    /// The transfer could not be posted, or its outcome not awaited.
    Post(PostError),
    /// The broker answered with an outcome other than `accepted`.
    NotAccepted(NotAcceptedError),
}

/// An outcome that may be the answer to a transfer on a sender link:
/// `declared` is only ever sent on a transaction controller link.
pub open spec fn is_transfer_outcome(o: Outcome) -> bool {
    !(o is Declared)
}

/// What a transfer's outcome means for the send that posted it. (`declared`
/// never answers a transfer: no contract here reads it.)
pub open spec fn outcome_result(o: Outcome) -> Result<(), NotAcceptedError> {
    match o {
        Outcome::Accepted(_) => Ok(()),
        Outcome::Rejected(r) => Err(NotAcceptedError::Rejected(r)),
        Outcome::Released(r) => Err(NotAcceptedError::Released(r)),
        Outcome::Modified(m) => Err(NotAcceptedError::Modified(m)),
        Outcome::Declared(_) => Ok(()),
    }
}

/// Success for `accepted`; for every other outcome a failure that keeps it.
pub fn interpret_outcome(outcome: Outcome) -> (r: Result<(), NotAcceptedError>)
    requires
        is_transfer_outcome(outcome),
    ensures
        r == outcome_result(outcome),
        r is Ok <==> outcome is Accepted,
{
    match outcome {
        Outcome::Accepted(_) => Ok(()),
        Outcome::Rejected(r) => Err(NotAcceptedError::Rejected(r)),
        Outcome::Released(r) => Err(NotAcceptedError::Released(r)),
        Outcome::Modified(m) => Err(NotAcceptedError::Modified(m)),
        Outcome::Declared(_) => Ok(()),
    }
}

/// `accepted` is success; `rejected`, `released` and `modified` are each a
/// failure of their own kind, which keeps the outcome the broker gave.
pub proof fn lemma_outcome_classes(o: Outcome)
    requires
        is_transfer_outcome(o),
    ensures
        outcome_result(o) is Ok <==> o is Accepted,
        o matches Outcome::Rejected(x) ==> outcome_result(o) == Err::<(), NotAcceptedError>(
            NotAcceptedError::Rejected(x),
        ),
        o matches Outcome::Released(x) ==> outcome_result(o) == Err::<(), NotAcceptedError>(
            NotAcceptedError::Released(x),
        ),
        o matches Outcome::Modified(x) ==> outcome_result(o) == Err::<(), NotAcceptedError>(
            NotAcceptedError::Modified(x),
        ),
{
}

} // verus!
