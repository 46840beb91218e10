//! Transactional operations on one declared transaction.
//!
//! The broker does not retry an operation made inside a transaction, and
//! neither does this module: each step is planned once, and each answer is
//! read once and handed back to the caller.

use vstd::prelude::*;
use fe2o3_amqp::link::IllegalLinkStateError;
use fe2o3_amqp::transaction::PostError;
use fe2o3_amqp_types::messaging::Outcome;
use serde_amqp::primitives::OrderedMap;
use serde_amqp::Value;
use crate::message::{DeliveryAddress, ReceivedMessageLockToken, ServiceBusReceivedMessage};
use crate::outcome::{
    interpret_outcome, is_transfer_outcome, outcome_result, NotAcceptedError,
    TransactionSendError,
};

verus! {

/// The outcome that a settlement made in the transaction gives a delivery.
pub enum Retirement {
    /// `accepted`: the message is completed.
    Accept,
    /// `modified`: the message goes back to the queue, with these flags and
    /// with these annotations merged onto it.
    Modify {
        delivery_failed: Option<bool>,
        undeliverable_here: Option<bool>,
        message_annotations: Option<OrderedMap<String, Value>>,
    },
    /// `rejected`, with the dead-letter error: the broker moves the message to
    /// the dead-letter sub-queue.
    Reject {
        dead_letter_reason: Option<String>,
        dead_letter_error_description: Option<String>,
        properties_to_modify: Option<OrderedMap<String, Value>>,
    },
}

/// One settlement to be made in the transaction: this outcome for this delivery.
pub struct Settlement<D> {
    pub delivery_info: D,
    pub retirement: Retirement,
}

/// Failure of a transactional settlement.
pub enum TransactionDispositionError {
    /// The message is identified by a lock token; settling it goes through a
    /// request/response exchange, which cannot take part in a transaction.
    TransactionalRequestResponseNotImplemented,
    /// The receiving link could not make the settlement.
    IllegalLinkState(IllegalLinkStateError),
}

/// A message ready to be posted: a single transfer, or a batch that goes out as one.
pub enum SendableEnvelope<S, B> {
    Single(S),
    Batch(B),
}

/// What to post for a send.
pub enum SendStep<S, B> {
    /// Nothing was given: there is nothing to post, and the send has succeeded.
    Skip,
    /// Post this transfer and await its outcome.
    PostSingle(S),
    /// Post this batch as batchable, then await its outcome.
    PostBatch(B),
}

/// The step that a send takes for what the envelope builder made of its
/// messages (`None` where there were none).
pub open spec fn send_step<S, B>(envelope: Option<SendableEnvelope<S, B>>) -> SendStep<S, B> {
    match envelope {
        None => SendStep::Skip,
        Some(SendableEnvelope::Single(s)) => SendStep::PostSingle(s),
        Some(SendableEnvelope::Batch(b)) => SendStep::PostBatch(b),
    }
}

/// What a posted send returns, for the answer its posting got.
pub open spec fn send_result(posted: Result<Outcome, PostError>) -> Result<(), TransactionSendError> {
    match posted {
        Err(e) => Err(TransactionSendError::Post(e)),
        Ok(o) => match outcome_result(o) {
            Ok(()) => Ok(()),
            Err(n) => Err(TransactionSendError::NotAccepted(n)),
        },
    }
}

/// A posting answer that can come back from a sender link.
pub open spec fn is_transfer_answer(posted: Result<Outcome, PostError>) -> bool {
    posted matches Ok(o) ==> is_transfer_outcome(o)
}

/// The settlement that a transactional disposition asks for, or the error it
/// gives without any settlement.
pub open spec fn settlement_for<D>(
    message: ServiceBusReceivedMessage<D>,
    retirement: Retirement,
) -> Result<Settlement<D>, TransactionDispositionError> {
    match message.lock_token {
        ReceivedMessageLockToken::LockToken(_) => Err(
            TransactionDispositionError::TransactionalRequestResponseNotImplemented,
        ),
        ReceivedMessageLockToken::Delivery { delivery_info } => Ok(
            Settlement { delivery_info, retirement },
        ),
    }
}

/// What a settlement that was submitted returns, for the link's answer.
pub open spec fn disposition_result(
    submitted: Result<(), IllegalLinkStateError>,
) -> Result<(), TransactionDispositionError> {
    match submitted {
        Ok(()) => Ok(()),
        Err(e) => Err(TransactionDispositionError::IllegalLinkState(e)),
    }
}

/// A message identified by its lock token is never settled in a transaction:
/// whatever the kind of disposition, the result is the unsupported-operation
/// error, and there is no settlement to submit.
pub proof fn lemma_token_identified_unsupported<D>(
    message: ServiceBusReceivedMessage<D>,
    retirement: Retirement,
)
    requires
        message.is_token_identified(),
    ensures
        settlement_for(message, retirement) == Err::<Settlement<D>, TransactionDispositionError>(
            TransactionDispositionError::TransactionalRequestResponseNotImplemented,
        ),
{
}

/// A message identified by its delivery gives exactly one settlement, on that
/// delivery, with the outcome of the disposition's kind: complete accepts,
/// abandon modifies with both flags unset, dead-letter rejects with the
/// reason, description and properties, defer modifies as undeliverable here.
pub proof fn lemma_delivery_identified_settled<D>(
    message: ServiceBusReceivedMessage<D>,
    properties_to_modify: Option<OrderedMap<String, Value>>,
    dead_letter_reason: Option<String>,
    dead_letter_error_description: Option<String>,
)
    requires
        message.lock_token is Delivery,
    ensures
        ({
            let d = message.lock_token->delivery_info;
            &&& settlement_for(message, Retirement::Accept) == Ok::<
                Settlement<D>,
                TransactionDispositionError,
            >(Settlement { delivery_info: d, retirement: Retirement::Accept })
            &&& settlement_for(
                message,
                Retirement::Modify {
                    delivery_failed: None,
                    undeliverable_here: None,
                    message_annotations: properties_to_modify,
                },
            ) == Ok::<Settlement<D>, TransactionDispositionError>(
                Settlement {
                    delivery_info: d,
                    retirement: Retirement::Modify {
                        delivery_failed: None,
                        undeliverable_here: None,
                        message_annotations: properties_to_modify,
                    },
                },
            )
            &&& settlement_for(
                message,
                Retirement::Reject {
                    dead_letter_reason,
                    dead_letter_error_description,
                    properties_to_modify,
                },
            ) == Ok::<Settlement<D>, TransactionDispositionError>(
                Settlement {
                    delivery_info: d,
                    retirement: Retirement::Reject {
                        dead_letter_reason,
                        dead_letter_error_description,
                        properties_to_modify,
                    },
                },
            )
            &&& settlement_for(
                message,
                Retirement::Modify {
                    delivery_failed: None,
                    undeliverable_here: Some(true),
                    message_annotations: properties_to_modify,
                },
            ) == Ok::<Settlement<D>, TransactionDispositionError>(
                Settlement {
                    delivery_info: d,
                    retirement: Retirement::Modify {
                        delivery_failed: None,
                        undeliverable_here: Some(true),
                        message_annotations: properties_to_modify,
                    },
                },
            )
        }),
{
}

/// Sending an empty set of messages, or an empty batch, posts nothing and
/// succeeds.
pub proof fn lemma_empty_send_posts_nothing<S, B>()
    ensures
        send_step::<S, B>(None) is Skip,
{
}

/// A message sent alone and the same message sent as a one-element batch are
/// both posted, and the same broker answer gives both the same result:
/// success exactly for `accepted`.
pub proof fn lemma_single_and_batch_read_alike<S, B>(
    single: S,
    batch: B,
    posted: Result<Outcome, PostError>,
)
    requires
        is_transfer_answer(posted),
    ensures
        send_step::<S, B>(Some(SendableEnvelope::Single(single))) == SendStep::<S, B>::PostSingle(
            single,
        ),
        send_step::<S, B>(Some(SendableEnvelope::Batch(batch))) == SendStep::<S, B>::PostBatch(
            batch,
        ),
        send_result(posted) is Ok <==> posted matches Ok(Outcome::Accepted(_)),
        posted matches Err(e) ==> send_result(posted) == Err::<(), TransactionSendError>(
            TransactionSendError::Post(e),
        ),
        posted is Ok && !(posted->Ok_0 is Accepted) ==> send_result(posted) == Err::<
            (),
            TransactionSendError,
        >(TransactionSendError::NotAccepted(outcome_result(posted->Ok_0)->Err_0)),
{
}

/// One declared transaction of the AMQP session (a `fe2o3_amqp` transaction,
/// or whatever stands for it).
pub struct AmqpTransaction<T>(pub T);

impl<T> AmqpTransaction<T> {
    /// The step that sends an envelope: post it, as one transfer or as a batch.
    fn send_batch_envelope<S, B>(&self, envelope: SendableEnvelope<S, B>) -> (r: SendStep<S, B>)
        ensures
            r == send_step(Some(envelope)),
    {
        match envelope {
            SendableEnvelope::Single(s) => SendStep::PostSingle(s),
            SendableEnvelope::Batch(b) => SendStep::PostBatch(b),
        }
    }

    /// Reads the answer to a posted envelope, single or batch alike: success
    /// only for `accepted`. A failure is handed back as it came; it is not
    /// retried.
    pub fn send_batch_envelope_result(&self, posted: Result<Outcome, PostError>) -> (r: Result<
        (),
        TransactionSendError,
    >)
        requires
            is_transfer_answer(posted),
        ensures
            r == send_result(posted),
    {
        match posted {
            Err(e) => Err(TransactionSendError::Post(e)),
            Ok(o) => match interpret_outcome(o) {
                Ok(()) => Ok(()),
                Err(n) => Err(TransactionSendError::NotAccepted(n)),
            },
        }
    }

    /// The step that sends messages, given the envelope built from them.
    pub fn send<S, B>(&self, envelope: Option<SendableEnvelope<S, B>>) -> (r: SendStep<S, B>)
        ensures
            r == send_step(envelope),
            envelope is None <==> r is Skip,
    {
        match envelope {
            Some(e) => self.send_batch_envelope(e),
            None => SendStep::Skip,
        }
    }

    /// The step that sends a message batch, given the envelope built from it.
    pub fn send_batch<S, B>(&self, envelope: Option<SendableEnvelope<S, B>>) -> (r: SendStep<
        S,
        B,
    >)
        ensures
            r == send_step(envelope),
            envelope is None <==> r is Skip,
    {
        match envelope {
            Some(e) => self.send_batch_envelope(e),
            None => SendStep::Skip,
        }
    }

    /// The settlement that completes a delivery: `accepted`.
    fn complete_message<D: DeliveryAddress>(&self, delivery_info: D) -> (r: Settlement<D>)
        ensures
            r == (Settlement { delivery_info, retirement: Retirement::Accept }),
    {
        Settlement { delivery_info, retirement: Retirement::Accept }
    }

    /// The settlement that abandons a delivery: `modified`, both flags unset,
    /// so that the broker applies its redelivery policy.
    fn abandon_message<D: DeliveryAddress>(
        &self,
        delivery_info: D,
        properties_to_modify: Option<OrderedMap<String, Value>>,
    ) -> (r: Settlement<D>)
        ensures
            r == (Settlement {
                delivery_info,
                retirement: Retirement::Modify {
                    delivery_failed: None,
                    undeliverable_here: None,
                    message_annotations: properties_to_modify,
                },
            }),
    {
        let retirement = Retirement::Modify {
            delivery_failed: None,
            undeliverable_here: None,
            message_annotations: properties_to_modify,
        };
        Settlement { delivery_info, retirement }
    }

    /// The settlement that dead-letters a delivery: `rejected` with the
    /// dead-letter error built from the reason, description and properties.
    fn dead_letter_message<D: DeliveryAddress>(
        &self,
        delivery_info: D,
        dead_letter_reason: Option<String>,
        dead_letter_error_description: Option<String>,
        properties_to_modify: Option<OrderedMap<String, Value>>,
    ) -> (r: Settlement<D>)
        ensures
            r == (Settlement {
                delivery_info,
                retirement: Retirement::Reject {
                    dead_letter_reason,
                    dead_letter_error_description,
                    properties_to_modify,
                },
            }),
    {
        let retirement = Retirement::Reject {
            dead_letter_reason,
            dead_letter_error_description,
            properties_to_modify,
        };
        Settlement { delivery_info, retirement }
    }

    /// The settlement that defers a delivery: `modified`, undeliverable here,
    /// so that this link is not given the message again.
    fn defer_message<D: DeliveryAddress>(
        &self,
        delivery_info: D,
        properties_to_modify: Option<OrderedMap<String, Value>>,
    ) -> (r: Settlement<D>)
        ensures
            r == (Settlement {
                delivery_info,
                retirement: Retirement::Modify {
                    delivery_failed: None,
                    undeliverable_here: Some(true),
                    message_annotations: properties_to_modify,
                },
            }),
    {
        let retirement = Retirement::Modify {
            delivery_failed: None,
            undeliverable_here: Some(true),
            message_annotations: properties_to_modify,
        };
        Settlement { delivery_info, retirement }
    }

    /// Completes a message in the transaction.
    pub fn complete<D: DeliveryAddress>(
        &self,
        message: &ServiceBusReceivedMessage<D>,
        _session_id: Option<&str>,
    ) -> (r: Result<Settlement<D>, TransactionDispositionError>)
        ensures
            r == settlement_for(*message, Retirement::Accept),
    {
        match &message.lock_token {
            ReceivedMessageLockToken::LockToken(_lock_token) => Err(
                TransactionDispositionError::TransactionalRequestResponseNotImplemented,
            ),
            ReceivedMessageLockToken::Delivery { delivery_info } => {
                Ok(self.complete_message(delivery_info.copy_address()))
            },
        }
    }

    /// Abandons a message in the transaction.
    pub fn abandon<D: DeliveryAddress>(
        &self,
        message: &ServiceBusReceivedMessage<D>,
        properties_to_modify: Option<OrderedMap<String, Value>>,
        _session_id: Option<&str>,
    ) -> (r: Result<Settlement<D>, TransactionDispositionError>)
        ensures
            r == settlement_for(
                *message,
                Retirement::Modify {
                    delivery_failed: None,
                    undeliverable_here: None,
                    message_annotations: properties_to_modify,
                },
            ),
    {
        match &message.lock_token {
            ReceivedMessageLockToken::LockToken(_lock_token) => Err(
                TransactionDispositionError::TransactionalRequestResponseNotImplemented,
            ),
            ReceivedMessageLockToken::Delivery { delivery_info } => {
                Ok(self.abandon_message(delivery_info.copy_address(), properties_to_modify))
            },
        }
    }

    /// Dead-letters a message in the transaction.
    pub fn dead_letter<D: DeliveryAddress>(
        &self,
        message: &ServiceBusReceivedMessage<D>,
        dead_letter_reason: Option<String>,
        dead_letter_error_description: Option<String>,
        properties_to_modify: Option<OrderedMap<String, Value>>,
        _session_id: Option<&str>,
    ) -> (r: Result<Settlement<D>, TransactionDispositionError>)
        ensures
            r == settlement_for(
                *message,
                Retirement::Reject {
                    dead_letter_reason,
                    dead_letter_error_description,
                    properties_to_modify,
                },
            ),
    {
        match &message.lock_token {
            ReceivedMessageLockToken::LockToken(_lock_token) => Err(
                TransactionDispositionError::TransactionalRequestResponseNotImplemented,
            ),
            ReceivedMessageLockToken::Delivery { delivery_info } => {
                Ok(
                    self.dead_letter_message(
                        delivery_info.copy_address(),
                        dead_letter_reason,
                        dead_letter_error_description,
                        properties_to_modify,
                    ),
                )
            },
        }
    }

    /// Defers a message in the transaction.
    pub fn defer<D: DeliveryAddress>(
        &self,
        message: &ServiceBusReceivedMessage<D>,
        properties_to_modify: Option<OrderedMap<String, Value>>,
        _session_id: Option<&str>,
    ) -> (r: Result<Settlement<D>, TransactionDispositionError>)
        ensures
            r == settlement_for(
                *message,
                Retirement::Modify {
                    delivery_failed: None,
                    undeliverable_here: Some(true),
                    message_annotations: properties_to_modify,
                },
            ),
    {
        match &message.lock_token {
            ReceivedMessageLockToken::LockToken(_lock_token) => Err(
                TransactionDispositionError::TransactionalRequestResponseNotImplemented,
            ),
            ReceivedMessageLockToken::Delivery { delivery_info } => {
                Ok(self.defer_message(delivery_info.copy_address(), properties_to_modify))
            },
        }
    }

    /// Reads the receiving link's answer to a submitted settlement.
    pub fn disposition_result(&self, submitted: Result<(), IllegalLinkStateError>) -> (r: Result<
        (),
        TransactionDispositionError,
    >)
        ensures
            r == disposition_result(submitted),
    {
        match submitted {
            Ok(()) => Ok(()),
            Err(e) => Err(TransactionDispositionError::IllegalLinkState(e)),
        }
    }
}

} // verus!
