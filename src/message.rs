//! Received messages, and how one is identified for settlement.

use vstd::prelude::*;
use fe2o3_amqp::link::delivery::DeliveryInfo;
use fe2o3_amqp::link::Receiver;
use crate::amqp_types::copy_delivery_info;
use serde_amqp::primitives::{OrderedMap, Uuid};
use serde_amqp::Value;

verus! {

/// The coordinates of a delivery on a receiving link, to which a settlement
/// is addressed.
pub trait DeliveryAddress: Sized {
    /// A copy of the coordinates, equal to them.
    fn copy_address(&self) -> (r: Self)
        ensures
            r == *self,
    ;
}

impl DeliveryAddress for DeliveryInfo {
    fn copy_address(&self) -> (r: Self) {
        copy_delivery_info(self)
    }
}

/// How a received message can be settled: by its lock token, through the
/// broker's request/response API, or by its delivery on the receiving link.
pub enum ReceivedMessageLockToken<D = DeliveryInfo> {
    LockToken(Uuid),
    Delivery { delivery_info: D },
}

/// A message received from a queue or a subscription.
pub struct ServiceBusReceivedMessage<D = DeliveryInfo> {
    pub lock_token: ReceivedMessageLockToken<D>,
}

impl<D> ServiceBusReceivedMessage<D> {
    /// Whether the message can only be settled through its lock token.
    pub open spec fn is_token_identified(&self) -> bool {
        self.lock_token is LockToken
    }
}

/// What a message handler of a processor is given.
pub struct ProcessMessageEventArgs<'a, D = DeliveryInfo> {
    pub message: ServiceBusReceivedMessage<D>,
    pub entity_path: &'a str,
}

/// The dead letter options. Every field is absent by default.
pub struct DeadLetterOptions {
    /// The reason for dead-lettering the message
    pub dead_letter_reason: Option<String>,
    /// The error description for dead-lettering the message
    pub dead_letter_error_description: Option<String>,
    /// The properties to modify on the message
    pub properties_to_modify: Option<OrderedMap<String, Value>>,
}

impl Default for DeadLetterOptions {
    fn default() -> (r: Self)
        ensures
            r.dead_letter_reason is None,
            r.dead_letter_error_description is None,
            r.properties_to_modify is None,
    {
        DeadLetterOptions {
            dead_letter_reason: None,
            dead_letter_error_description: None,
            properties_to_modify: None,
        }
    }
}

/// A receiver whose messages can be settled inside a transaction: it lends its
/// AMQP receiving link, and the session it is bound to, if any.
pub trait MaybeSessionReceiver {
    fn get_inner_mut_and_session_id(&mut self) -> (&mut Receiver, Option<&str>);
}

} // verus!
