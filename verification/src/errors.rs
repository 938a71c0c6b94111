//! The closed set of failures shared by every component.

use vstd::prelude::*;

verus! {

/// What can go wrong in a messaging operation.
#[derive(Debug)]
pub enum MessagingError {
    /// An unexpected internal error occurred.
    InternalError,
    /// A message arrived that matches no registered subscription.
    UnregisteredHandler,
    /// The connection to the broker could not be made or was lost.
    ConnectionError,
    /// The backend could not create a consumer.
    CreatingConsumerError,
    /// A body or header could not be encoded.
    SerializingError,
    /// A body or header could not be decoded.
    DeserializingError,
    /// The registered handler failed on a message.
    HandlerError,
    /// A backend failure during consumption, with a free-text detail.
    ConsumerError(String),
    /// A publish attempt failed.
    PublisherError,
}

impl MessagingError {
    /// Equality of two errors: the same kind, and for `ConsumerError` the
    /// same detail text.
    pub open spec fn same(&self, other: &MessagingError) -> bool {
        match (*self, *other) {
            (MessagingError::InternalError, MessagingError::InternalError) => true,
            (MessagingError::UnregisteredHandler, MessagingError::UnregisteredHandler) => true,
            (MessagingError::ConnectionError, MessagingError::ConnectionError) => true,
            (MessagingError::CreatingConsumerError, MessagingError::CreatingConsumerError) => true,
            (MessagingError::SerializingError, MessagingError::SerializingError) => true,
            (MessagingError::DeserializingError, MessagingError::DeserializingError) => true,
            (MessagingError::HandlerError, MessagingError::HandlerError) => true,
            (MessagingError::ConsumerError(a), MessagingError::ConsumerError(b)) => a@ == b@,
            (MessagingError::PublisherError, MessagingError::PublisherError) => true,
            _ => false,
        }
    }
}

impl PartialEq for MessagingError {
    fn eq(&self, other: &MessagingError) -> (r: bool) {
        match (self, other) {
            (MessagingError::InternalError, MessagingError::InternalError) => true,
            (MessagingError::UnregisteredHandler, MessagingError::UnregisteredHandler) => true,
            (MessagingError::ConnectionError, MessagingError::ConnectionError) => true,
            (MessagingError::CreatingConsumerError, MessagingError::CreatingConsumerError) => true,
            (MessagingError::SerializingError, MessagingError::SerializingError) => true,
            (MessagingError::DeserializingError, MessagingError::DeserializingError) => true,
            (MessagingError::HandlerError, MessagingError::HandlerError) => true,
            (MessagingError::ConsumerError(a), MessagingError::ConsumerError(b)) => *a == *b,
            (MessagingError::PublisherError, MessagingError::PublisherError) => true,
            _ => false,
        }
    }
}

impl vstd::std_specs::cmp::PartialEqSpecImpl for MessagingError {
    open spec fn obeys_eq_spec() -> bool {
        true
    }

    open spec fn eq_spec(&self, other: &MessagingError) -> bool {
        self.same(other)
    }
}

impl Eq for MessagingError {}

} // verus!
