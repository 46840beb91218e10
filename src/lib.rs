//! Transactional send and settlement of Service Bus messages over AMQP.
//!
//! The network work (posting transfers, settling deliveries, discharging the
//! transaction) is done by the caller with `fe2o3_amqp`; this crate decides what
//! is posted or settled and how the broker's answers are read.

pub mod amqp_transaction;
pub mod amqp_types;
pub mod message;
pub mod outcome;
pub mod transaction;
