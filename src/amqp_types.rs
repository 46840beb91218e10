//! Types of the AMQP crates that the library carries through its logic.

use vstd::prelude::*;

verus! {

/// An AMQP value, as `serde_amqp` represents it; carried through unread.
#[verifier::external_type_specification]
#[verifier::external_body]
pub struct ExValue(serde_amqp::Value);

/// An insertion-ordered map of `serde_amqp`; carried through unread.
#[verifier::external_type_specification]
#[verifier::external_body]
#[verifier::reject_recursive_types(K)]
#[verifier::reject_recursive_types(V)]
pub struct ExOrderedMap<K, V>(serde_amqp::primitives::OrderedMap<K, V>);

/// The `accepted` outcome of AMQP 1.0.
#[verifier::external_type_specification]
#[verifier::external_body]
pub struct ExAccepted(fe2o3_amqp_types::messaging::Accepted);

/// The `rejected` outcome, with the broker's error if any.
#[verifier::external_type_specification]
#[verifier::external_body]
pub struct ExRejected(fe2o3_amqp_types::messaging::Rejected);

/// The `released` outcome.
#[verifier::external_type_specification]
#[verifier::external_body]
pub struct ExReleased(fe2o3_amqp_types::messaging::Released);

/// The `modified` outcome, with its flags and annotations.
#[verifier::external_type_specification]
#[verifier::external_body]
pub struct ExModified(fe2o3_amqp_types::messaging::Modified);

/// The `declared` outcome, which only a transaction controller link carries.
#[verifier::external_type_specification]
#[verifier::external_body]
pub struct ExDeclared(fe2o3_amqp_types::transaction::Declared);

/// The terminal delivery states of AMQP 1.0; its variants are read by the library.
#[verifier::external_type_specification]
pub struct ExOutcome(fe2o3_amqp_types::messaging::Outcome);

/// The coordinates of a received delivery on its link.
#[verifier::external_type_specification]
#[verifier::external_body]
pub struct ExDeliveryInfo(fe2o3_amqp::link::delivery::DeliveryInfo);

/// The error of a settlement made on a link that cannot make it.
#[verifier::external_type_specification]
#[verifier::external_body]
pub struct ExIllegalLinkStateError(fe2o3_amqp::link::IllegalLinkStateError);

/// The error of a transactional transfer that could not be posted.
#[verifier::external_type_specification]
#[verifier::external_body]
pub struct ExPostError(fe2o3_amqp::transaction::PostError);

/// A lock token as AMQP encodes it; carried through unread.
#[verifier::external_type_specification]
#[verifier::external_body]
pub struct ExUuid(serde_amqp::primitives::Uuid);

/// The receiving end of an AMQP link.
#[verifier::external_type_specification]
#[verifier::external_body]
pub struct ExReceiver(fe2o3_amqp::link::Receiver);

/// Relies on the `Clone` that `DeliveryInfo` derives: the copy is the same value.
#[verifier::external_body]
pub(crate) fn copy_delivery_info(d: &fe2o3_amqp::link::delivery::DeliveryInfo) -> (r:
    fe2o3_amqp::link::delivery::DeliveryInfo)
    ensures
        r == *d,
{
    d.clone()
}

} // verus!
