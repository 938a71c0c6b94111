use messaging::errors::MessagingError;
use messaging::handler::ConsumerMessage;
use messaging::publisher::{HeaderValues, PublishMessage};
use std::collections::HashMap;

#[test]
fn consumer_message_holds_what_it_was_given() {
    let mut headers = HashMap::new();
    headers.insert("trace".to_string(), "abc123".to_string());
    headers.insert("tenant".to_string(), "blue".to_string());
    let msg = ConsumerMessage::new("orders", "order.created", &[1, 2, 3], Some(headers));
    assert_eq!(msg.from, "orders");
    assert_eq!(msg.msg_type, "order.created");
    assert_eq!(&*msg.data, &[1u8, 2, 3][..]);
    let headers = msg.headers.expect("headers were given");
    assert_eq!(headers.len(), 2);
    assert_eq!(headers.get("trace").map(String::as_str), Some("abc123"));
    assert_eq!(headers.get("tenant").map(String::as_str), Some("blue"));
}

#[test]
fn consumer_message_may_have_no_type_no_body_and_no_headers() {
    let msg = ConsumerMessage::new("events", "", &[], None);
    assert_eq!(msg.from, "events");
    assert_eq!(msg.msg_type, "");
    assert!(msg.data.is_empty());
    assert!(msg.headers.is_none());
}

#[test]
fn consumer_message_owns_a_copy_of_the_body() {
    let mut body = vec![10u8, 20, 30, 40];
    let msg = ConsumerMessage::new("q", "t", &body, None);
    body[0] = 99;
    body.clear();
    assert_eq!(&*msg.data, &[10u8, 20, 30, 40][..]);
    assert_eq!(msg.data.len(), 4);
}

#[test]
fn default_consumer_message_is_empty() {
    let msg = ConsumerMessage::default();
    assert_eq!(msg.from, "");
    assert_eq!(msg.msg_type, "");
    assert!(msg.data.is_empty());
    assert!(msg.headers.is_none());
}

#[test]
fn cloned_consumer_message_holds_the_same_fields() {
    let mut headers = HashMap::new();
    headers.insert("k".to_string(), "v".to_string());
    let msg = ConsumerMessage::new("orders", "order.created", &[7, 8], Some(headers));
    let copy = msg.clone();
    assert_eq!(copy.from, msg.from);
    assert_eq!(copy.msg_type, msg.msg_type);
    assert_eq!(copy.data, msg.data);
    assert_eq!(copy.headers, msg.headers);
    assert_eq!(&*copy.data, &[7u8, 8][..]);
}

#[test]
fn publish_message_holds_what_it_was_given() {
    let mut headers = HashMap::new();
    headers.insert("attempt".to_string(), HeaderValues::Uint(3));
    headers.insert("origin".to_string(), HeaderValues::ShortString("billing".to_string()));
    let msg = PublishMessage::new(
        Some("billing"),
        "orders",
        Some("eu.west"),
        Some("order.created"),
        &[0xde, 0xad],
        Some(headers),
    );
    assert_eq!(msg.from.as_deref(), Some("billing"));
    assert_eq!(msg.to, "orders");
    assert_eq!(msg.key.as_deref(), Some("eu.west"));
    assert_eq!(msg.msg_type.as_deref(), Some("order.created"));
    assert_eq!(&*msg.data, &[0xdeu8, 0xad][..]);
    let headers = msg.headers.expect("headers were given");
    assert_eq!(headers.len(), 2);
    assert_eq!(String::from(headers["attempt"].clone()), "3");
    assert_eq!(String::from(headers["origin"].clone()), "billing");
}

#[test]
fn publish_message_keeps_absent_fields_absent() {
    let msg = PublishMessage::new(None, "orders", None, None, &[1], None);
    assert!(msg.from.is_none());
    assert!(msg.key.is_none());
    assert!(msg.msg_type.is_none());
    assert!(msg.headers.is_none());
    assert_eq!(msg.to, "orders");
}

#[test]
fn publish_message_keeps_an_empty_field_apart_from_an_absent_one() {
    let msg = PublishMessage::new(Some(""), "orders", Some(""), Some(""), &[], None);
    assert_eq!(msg.from.as_deref(), Some(""));
    assert_eq!(msg.key.as_deref(), Some(""));
    assert_eq!(msg.msg_type.as_deref(), Some(""));
}

#[test]
fn publish_with_an_empty_body_and_no_headers_is_accepted() {
    let msg = PublishMessage::new(None, "orders", None, None, &[], None);
    assert!(msg.data.is_empty());
    assert!(msg.headers.is_none());
    assert_eq!(msg.validate(), Ok(()));
}

#[test]
fn publish_with_a_body_and_headers_is_accepted() {
    let mut headers = HashMap::new();
    headers.insert("n".to_string(), HeaderValues::LongLongInt(-1));
    let msg = PublishMessage::new(Some("a"), "b", Some("c"), Some("d"), &[1, 2], Some(headers));
    assert_eq!(msg.validate(), Ok(()));
}

#[test]
fn publish_without_a_destination_is_refused() {
    let msg = PublishMessage::new(Some("billing"), "", None, None, &[1, 2, 3], None);
    assert_eq!(msg.validate(), Err(MessagingError::PublisherError));
}

#[test]
fn cloned_publish_message_holds_the_same_fields() {
    let mut headers = HashMap::new();
    headers.insert("n".to_string(), HeaderValues::LongInt(5));
    let msg = PublishMessage::new(Some("a"), "b", None, Some("d"), &[9, 9, 9], Some(headers));
    let copy = msg.clone();
    assert_eq!(copy.from, msg.from);
    assert_eq!(copy.to, msg.to);
    assert_eq!(copy.key, msg.key);
    assert_eq!(copy.msg_type, msg.msg_type);
    assert_eq!(copy.data, msg.data);
    assert_eq!(copy.validate(), msg.validate());
    let copied = copy.headers.expect("headers were given");
    assert_eq!(copied.len(), 1);
    assert_eq!(String::from(copied["n"].clone()), "5");
}
