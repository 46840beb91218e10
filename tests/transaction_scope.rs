use fe2o3_amqp::link::IllegalLinkStateError;
use fe2o3_amqp::transaction::PostError;
use fe2o3_amqp_types::messaging::{Accepted, Modified, Outcome, Rejected, Released};
use serde_amqp::primitives::{OrderedMap, Uuid};
use serde_amqp::Value;
use servicebus_txn::amqp_transaction::{
    Retirement, SendStep, SendableEnvelope, Settlement, TransactionDispositionError,
};
use servicebus_txn::message::{
    DeadLetterOptions, DeliveryAddress, ProcessMessageEventArgs, ReceivedMessageLockToken,
    ServiceBusReceivedMessage,
};
use servicebus_txn::outcome::{interpret_outcome, NotAcceptedError, TransactionSendError};
use servicebus_txn::transaction::{DischargeKind, TransactionScope};

#[derive(Clone, Copy, Debug, PartialEq)]
struct Tag(u32);

impl DeliveryAddress for Tag {
    fn copy_address(&self) -> Self {
        *self
    }
}

fn scope() -> TransactionScope<u64> {
    TransactionScope::new(7u64)
}

fn by_token() -> ServiceBusReceivedMessage<Tag> {
    ServiceBusReceivedMessage {
        lock_token: ReceivedMessageLockToken::LockToken(Uuid::from([3u8; 16])),
    }
}

fn by_delivery(id: u32) -> ServiceBusReceivedMessage<Tag> {
    ServiceBusReceivedMessage {
        lock_token: ReceivedMessageLockToken::Delivery { delivery_info: Tag(id) },
    }
}

fn props() -> OrderedMap<String, Value> {
    let mut m = OrderedMap::new();
    m.insert("attempt".to_string(), Value::Int(2));
    m.insert("source".to_string(), Value::String("billing".to_string()));
    m
}

fn is_unsupported<D>(r: &Result<Settlement<D>, TransactionDispositionError>) -> bool {
    matches!(r, Err(TransactionDispositionError::TransactionalRequestResponseNotImplemented))
}

fn same_props(a: &OrderedMap<String, Value>) -> bool {
    a.len() == 2
        && a.get("attempt") == Some(&Value::Int(2))
        && a.get("source") == Some(&Value::String("billing".to_string()))
}

#[test]
fn token_identified_message_cannot_be_settled_in_a_transaction() {
    let s = scope();
    let m = by_token();
    assert!(is_unsupported(&s.complete_message(&m, None)));
    assert!(is_unsupported(&s.abandon_message(&m, Some(props()), Some("session-1"))));
    assert!(is_unsupported(&s.dead_letter_message(&m, DeadLetterOptions::default(), None)));
    assert!(is_unsupported(&s.defer_message(&m, None, None)));
}

#[test]
fn complete_accepts_the_delivery() {
    let r = scope().complete_message(&by_delivery(11), None);
    match r {
        Ok(st) => {
            assert_eq!(st.delivery_info, Tag(11));
            assert!(matches!(st.retirement, Retirement::Accept));
        }
        Err(_) => panic!("a delivery-identified message is settled"),
    }
}

#[test]
fn abandon_modifies_with_flags_unset() {
    let r = scope().abandon_message(&by_delivery(12), Some(props()), Some("session-1"));
    match r {
        Ok(Settlement {
            delivery_info,
            retirement: Retirement::Modify { delivery_failed, undeliverable_here, message_annotations },
        }) => {
            assert_eq!(delivery_info, Tag(12));
            assert_eq!(delivery_failed, None);
            assert_eq!(undeliverable_here, None);
            assert!(same_props(&message_annotations.unwrap()));
        }
        _ => panic!("abandon gives a modified settlement"),
    }
}

#[test]
fn abandon_without_properties_has_no_annotations() {
    let r = scope().abandon_message(&by_delivery(13), None, None);
    match r {
        Ok(Settlement { retirement: Retirement::Modify { message_annotations, .. }, .. }) => {
            assert!(message_annotations.is_none());
        }
        _ => panic!("abandon gives a modified settlement"),
    }
}

#[test]
fn defer_modifies_as_undeliverable_here() {
    let r = scope().defer_message(&by_delivery(14), Some(props()), None);
    match r {
        Ok(Settlement {
            delivery_info,
            retirement: Retirement::Modify { delivery_failed, undeliverable_here, message_annotations },
        }) => {
            assert_eq!(delivery_info, Tag(14));
            assert_eq!(delivery_failed, None);
            assert_eq!(undeliverable_here, Some(true));
            assert!(same_props(&message_annotations.unwrap()));
        }
        _ => panic!("defer gives a modified settlement"),
    }
}

#[test]
fn dead_letter_with_all_options_carries_them_unchanged() {
    let options = DeadLetterOptions {
        dead_letter_reason: Some("poison".to_string()),
        dead_letter_error_description: Some("could not parse the body".to_string()),
        properties_to_modify: Some(props()),
    };
    let r = scope().dead_letter_message(&by_delivery(15), options, None);
    match r {
        Ok(Settlement {
            delivery_info,
            retirement:
                Retirement::Reject {
                    dead_letter_reason,
                    dead_letter_error_description,
                    properties_to_modify,
                },
        }) => {
            assert_eq!(delivery_info, Tag(15));
            assert_eq!(dead_letter_reason.as_deref(), Some("poison"));
            assert_eq!(dead_letter_error_description.as_deref(), Some("could not parse the body"));
            assert!(same_props(&properties_to_modify.unwrap()));
        }
        _ => panic!("dead-letter gives a rejected settlement"),
    }
}

#[test]
fn dead_letter_with_default_options_has_nothing_to_carry() {
    let r = scope().dead_letter_message(&by_delivery(16), DeadLetterOptions::default(), None);
    match r {
        Ok(Settlement {
            retirement:
                Retirement::Reject {
                    dead_letter_reason,
                    dead_letter_error_description,
                    properties_to_modify,
                },
            ..
        }) => {
            assert!(dead_letter_reason.is_none());
            assert!(dead_letter_error_description.is_none());
            assert!(properties_to_modify.is_none());
        }
        _ => panic!("dead-letter gives a rejected settlement"),
    }
}

#[test]
fn default_dead_letter_options_are_all_absent() {
    let o = DeadLetterOptions::default();
    assert!(o.dead_letter_reason.is_none());
    assert!(o.dead_letter_error_description.is_none());
    assert!(o.properties_to_modify.is_none());
}

#[test]
fn empty_message_set_posts_nothing() {
    let s = scope();
    let step = s.send_messages::<&str, Vec<&str>>(None);
    assert!(matches!(step, SendStep::Skip));
}

#[test]
fn empty_message_batch_posts_nothing() {
    let step = scope().send_message_batch::<&str, Vec<&str>>(None);
    assert!(matches!(step, SendStep::Skip));
}

#[test]
fn single_message_is_posted_alone() {
    let step = scope().send_message::<&str, Vec<&str>>(SendableEnvelope::Single("hello world txn"));
    assert!(matches!(step, SendStep::PostSingle("hello world txn")));
}

#[test]
fn batch_envelope_is_posted_as_batch() {
    let step = scope().send_messages::<&str, Vec<&str>>(Some(SendableEnvelope::Batch(vec!["a", "b"])));
    match step {
        SendStep::PostBatch(b) => assert_eq!(b, vec!["a", "b"]),
        _ => panic!("a batch envelope is posted as a batch"),
    }
}

#[test]
fn one_element_batch_posts_the_same_message() {
    let step = scope().send_message_batch::<&str, Vec<&str>>(Some(SendableEnvelope::Batch(vec!["m"])));
    match step {
        SendStep::PostBatch(b) => assert_eq!(b, vec!["m"]),
        _ => panic!("a batch envelope is posted as a batch"),
    }
}

#[test]
fn accepted_outcome_is_success() {
    assert!(interpret_outcome(Outcome::Accepted(Accepted {})).is_ok());
}

#[test]
fn rejected_outcome_keeps_its_error() {
    let err = fe2o3_amqp_types::definitions::Error::new(
        fe2o3_amqp_types::definitions::AmqpError::NotAllowed,
        Some("quota".to_string()),
        None,
    );
    let r = interpret_outcome(Outcome::Rejected(Rejected { error: Some(err.clone()) }));
    match r {
        Err(NotAcceptedError::Rejected(rej)) => assert_eq!(rej.error, Some(err)),
        _ => panic!("rejected is a failure of its own"),
    }
}

#[test]
fn released_outcome_is_its_own_failure() {
    let r = interpret_outcome(Outcome::Released(Released {}));
    assert!(matches!(r, Err(NotAcceptedError::Released(_))));
}

#[test]
fn modified_outcome_keeps_its_flags() {
    let m = Modified { delivery_failed: Some(true), undeliverable_here: Some(false), message_annotations: None };
    let r = interpret_outcome(Outcome::Modified(m.clone()));
    match r {
        Err(NotAcceptedError::Modified(got)) => assert_eq!(got, m),
        _ => panic!("modified is a failure of its own"),
    }
}

#[test]
fn send_result_reads_outcomes_of_single_and_batch_alike() {
    let s = scope();
    assert!(s.send_result(Ok(Outcome::Accepted(Accepted {}))).is_ok());
    assert!(matches!(
        s.send_result(Ok(Outcome::Released(Released {}))),
        Err(TransactionSendError::NotAccepted(NotAcceptedError::Released(_)))
    ));
    assert!(matches!(
        s.send_result(Ok(Outcome::Rejected(Rejected { error: None }))),
        Err(TransactionSendError::NotAccepted(NotAcceptedError::Rejected(_)))
    ));
}

#[test]
fn failed_post_is_a_send_error() {
    let r = scope().send_result(Err(PostError::NonTerminalDeliveryState));
    assert!(matches!(r, Err(TransactionSendError::Post(PostError::NonTerminalDeliveryState))));
}

#[test]
fn link_state_error_fails_the_disposition() {
    let s = scope();
    assert!(s.disposition_result(Ok(())).is_ok());
    let r = s.disposition_result(Err(IllegalLinkStateError::IllegalState));
    assert!(matches!(
        r,
        Err(TransactionDispositionError::IllegalLinkState(IllegalLinkStateError::IllegalState))
    ));
}

#[test]
fn commit_and_rollback_hand_back_the_transaction() {
    let c = TransactionScope::new(41u64).commit();
    assert_eq!(c.transaction, 41);
    assert!(c.kind == DischargeKind::Commit);
    let r = TransactionScope::new(42u64).rollback();
    assert_eq!(r.transaction, 42);
    assert!(r.kind == DischargeKind::Rollback);
}

#[test]
fn scope_lends_its_transaction() {
    let s = TransactionScope::new(9u64);
    assert_eq!(*s.transaction(), 9);
}

#[test]
fn process_message_event_args_hold_message_and_path() {
    let args = ProcessMessageEventArgs { message: by_delivery(5), entity_path: "queue-a" };
    assert_eq!(args.entity_path, "queue-a");
    assert!(matches!(args.message.lock_token, ReceivedMessageLockToken::Delivery { delivery_info: Tag(5) }));
}
