//! Transaction scope for Service Bus.
//!
//! Inside a scope a caller can send messages and complete, abandon,
//! dead-letter or defer received messages. Each method decides what is to be
//! posted or settled; the caller performs that on the links and hands the
//! answer back to be read. A scope ends by being consumed into `commit` or
//! `rollback`, so neither can follow the other, nor itself.

use vstd::prelude::*;
use fe2o3_amqp::link::IllegalLinkStateError;
use fe2o3_amqp::transaction::PostError;
use fe2o3_amqp_types::messaging::Outcome;
use serde_amqp::primitives::OrderedMap;
use serde_amqp::Value;
use crate::amqp_transaction::{
    disposition_result, is_transfer_answer, send_result, send_step, settlement_for, AmqpTransaction,
    Retirement, SendStep, SendableEnvelope, Settlement, TransactionDispositionError,
};
use crate::message::{DeadLetterOptions, DeliveryAddress, ServiceBusReceivedMessage};
use crate::outcome::TransactionSendError;

verus! {

/// How a transaction is discharged.
#[derive(PartialEq, Eq, Structural)]
pub enum DischargeKind {
    /// Every operation of the transaction takes effect.
    Commit,
    /// Every operation of the transaction is discarded.
    Rollback,
}

/// A finished scope: its transaction, and how the controller is to discharge it.
pub struct Discharge<T> {
    pub transaction: T,
    pub kind: DischargeKind,
}

/// Dead-letter options reach the rejection field by field: absent ones stay
/// absent (no reason, no description, no annotations), present ones arrive
/// unchanged.
pub proof fn lemma_dead_letter_options_carried<D>(
    message: ServiceBusReceivedMessage<D>,
    options: DeadLetterOptions,
)
    requires
        message.lock_token is Delivery,
    ensures
        ({
            let r = settlement_for(
                message,
                Retirement::Reject {
                    dead_letter_reason: options.dead_letter_reason,
                    dead_letter_error_description: options.dead_letter_error_description,
                    properties_to_modify: options.properties_to_modify,
                },
            );
            &&& r is Ok
            &&& r->Ok_0.retirement matches Retirement::Reject {
                dead_letter_reason,
                dead_letter_error_description,
                properties_to_modify,
            } && dead_letter_reason == options.dead_letter_reason
                && dead_letter_error_description == options.dead_letter_error_description
                && properties_to_modify == options.properties_to_modify
            &&& options.dead_letter_reason is None && options.dead_letter_error_description is None
                && options.properties_to_modify is None ==> r->Ok_0.retirement == Retirement::Reject {
                dead_letter_reason: None,
                dead_letter_error_description: None,
                properties_to_modify: None,
            }
        }),
{
}

/// A Service Bus transaction scope
pub struct TransactionScope<T> {
    txn: AmqpTransaction<T>,
}

impl<T> TransactionScope<T> {
    /// The transaction that the scope's operations take part in.
    pub closed spec fn spec_transaction(&self) -> T {
        self.txn.0
    }

    /// Opens a scope over a transaction that has just been declared.
    pub fn new(txn: T) -> (r: Self)
        ensures
            r.spec_transaction() == txn,
    {
        TransactionScope { txn: AmqpTransaction(txn) }
    }

    /// The transaction, on which the caller posts and settles.
    pub fn transaction(&self) -> (r: &T)
        ensures
            *r == self.spec_transaction(),
    {
        &self.txn.0
    }

    /// Commit the transaction
    pub fn commit(self) -> (r: Discharge<T>)
        ensures
            r.transaction == self.spec_transaction(),
            r.kind == DischargeKind::Commit,
    {
        Discharge { transaction: self.txn.0, kind: DischargeKind::Commit }
    }

    /// Rollback the transaction
    pub fn rollback(self) -> (r: Discharge<T>)
        ensures
            r.transaction == self.spec_transaction(),
            r.kind == DischargeKind::Rollback,
    {
        Discharge { transaction: self.txn.0, kind: DischargeKind::Rollback }
    }

    /// Send a message within the transaction scope: one message always makes
    /// an envelope, so there is always something to post.
    pub fn send_message<S, B>(&self, envelope: SendableEnvelope<S, B>) -> (r: SendStep<S, B>)
        ensures
            r == send_step(Some(envelope)),
            !(r is Skip),
    {
        self.txn.send(Some(envelope))
    }

    /// Send a set of messages within the transaction scope, given the envelope
    /// built from them; an empty set posts nothing and succeeds.
    pub fn send_messages<S, B>(&self, envelope: Option<SendableEnvelope<S, B>>) -> (r: SendStep<
        S,
        B,
    >)
        ensures
            r == send_step(envelope),
            envelope is None <==> r is Skip,
    {
        self.txn.send(envelope)
    }

    /// Send a message batch within the transaction scope, given the envelope
    /// built from it; an empty batch posts nothing and succeeds.
    pub fn send_message_batch<S, B>(&self, envelope: Option<SendableEnvelope<S, B>>) -> (r: SendStep<
        S,
        B,
    >)
        ensures
            r == send_step(envelope),
            envelope is None <==> r is Skip,
    {
        self.txn.send_batch(envelope)
    }

    /// The result of a send whose envelope was posted, for the answer it got.
    pub fn send_result(&self, posted: Result<Outcome, PostError>) -> (r: Result<
        (),
        TransactionSendError,
    >)
        requires
            is_transfer_answer(posted),
        ensures
            r == send_result(posted),
    {
        self.txn.send_batch_envelope_result(posted)
    }

    /// Complete a message within the transaction scope
    pub fn complete_message<D: DeliveryAddress>(&self, message: &ServiceBusReceivedMessage<D>, session_id: Option<&str>) -> (r:
        Result<Settlement<D>, TransactionDispositionError>)
        ensures
            r == settlement_for(*message, Retirement::Accept),
    {
        self.txn.complete(message, session_id)
    }

    /// Abandon a message within the transaction scope
    pub fn abandon_message<D: DeliveryAddress>(
        &self,
        message: &ServiceBusReceivedMessage<D>,
        properties_to_modify: Option<OrderedMap<String, Value>>,
        session_id: Option<&str>,
    ) -> (r: Result<Settlement<D>, TransactionDispositionError>)
        ensures
            r == settlement_for(
                *message,
                Retirement::Modify {
                    delivery_failed: None,
                    undeliverable_here: None,
                    message_annotations: properties_to_modify,
                },
            ),
    {
        self.txn.abandon(message, properties_to_modify, session_id)
    }

    /// Deadletter a message within the transaction scope
    pub fn dead_letter_message<D: DeliveryAddress>(
        &self,
        message: &ServiceBusReceivedMessage<D>,
        options: DeadLetterOptions,
        session_id: Option<&str>,
    ) -> (r: Result<Settlement<D>, TransactionDispositionError>)
        ensures
            r == settlement_for(
                *message,
                Retirement::Reject {
                    dead_letter_reason: options.dead_letter_reason,
                    dead_letter_error_description: options.dead_letter_error_description,
                    properties_to_modify: options.properties_to_modify,
                },
            ),
    {
        self.txn.dead_letter(
            message,
            options.dead_letter_reason,
            options.dead_letter_error_description,
            options.properties_to_modify,
            session_id,
        )
    }

    /// Defer a message within the transaction scope
    pub fn defer_message<D: DeliveryAddress>(
        &self,
        message: &ServiceBusReceivedMessage<D>,
        properties_to_modify: Option<OrderedMap<String, Value>>,
        session_id: Option<&str>,
    ) -> (r: Result<Settlement<D>, TransactionDispositionError>)
        ensures
            r == settlement_for(
                *message,
                Retirement::Modify {
                    delivery_failed: None,
                    undeliverable_here: Some(true),
                    message_annotations: properties_to_modify,
                },
            ),
    {
        self.txn.defer(message, properties_to_modify, session_id)
    }

    /// The result of a settlement that was submitted, for the link's answer.
    pub fn disposition_result(&self, submitted: Result<(), IllegalLinkStateError>) -> (r: Result<
        (),
        TransactionDispositionError,
    >)
        ensures
            r == disposition_result(submitted),
    {
        self.txn.disposition_result(submitted)
    }
}

} // verus!
