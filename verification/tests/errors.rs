use messaging::errors::MessagingError;

fn all_kinds() -> Vec<MessagingError> {
    vec![
        MessagingError::InternalError,
        MessagingError::UnregisteredHandler,
        MessagingError::ConnectionError,
        MessagingError::CreatingConsumerError,
        MessagingError::SerializingError,
        MessagingError::DeserializingError,
        MessagingError::HandlerError,
        MessagingError::ConsumerError("detail".to_string()),
        MessagingError::PublisherError,
    ]
}

#[test]
fn there_are_nine_kinds_and_each_equals_itself_only() {
    let left = all_kinds();
    let right = all_kinds();
    assert_eq!(left.len(), 9);
    for (i, a) in left.iter().enumerate() {
        for (j, b) in right.iter().enumerate() {
            assert_eq!(a == b, i == j, "kinds {:?} and {:?}", a, b);
        }
    }
}

#[test]
fn consumer_errors_are_equal_when_their_details_are() {
    assert_eq!(
        MessagingError::ConsumerError("timeout".to_string()),
        MessagingError::ConsumerError("timeout".to_string())
    );
    assert_ne!(
        MessagingError::ConsumerError("timeout".to_string()),
        MessagingError::ConsumerError("refused".to_string())
    );
    assert_ne!(
        MessagingError::ConsumerError(String::new()),
        MessagingError::ConsumerError(" ".to_string())
    );
    assert_eq!(
        MessagingError::ConsumerError(String::new()),
        MessagingError::ConsumerError(String::new())
    );
}

#[test]
fn a_consumer_error_carries_its_detail() {
    let e = MessagingError::ConsumerError("channel closed by peer".to_string());
    match e {
        MessagingError::ConsumerError(detail) => assert_eq!(detail, "channel closed by peer"),
        other => panic!("unexpected kind {:?}", other),
    }
}

#[test]
fn kinds_can_be_shown_for_debugging() {
    assert_eq!(format!("{:?}", MessagingError::InternalError), "InternalError");
    assert_eq!(
        format!("{:?}", MessagingError::ConsumerError("x".to_string())),
        "ConsumerError(\"x\")"
    );
}
