//! The inbound side: the message that a handler receives.

use crate::body::boxed_bytes;
use std::collections::HashMap;
use vstd::prelude::*;

verus! {

/// One message delivered from a broker to a handler.
pub struct ConsumerMessage {
    /// The queue, topic or exchange the message arrived on.
    pub from: String,
    /// The type tag of the message; empty where the backend has none.
    pub msg_type: String,
    /// The body of the message.
    pub data: Box<[u8]>,
    /// Optional headers of the message.
    pub headers: Option<HashMap<String, String>>,
}

impl ConsumerMessage {
    /// The headers as a mathematical map, where there are any.
    pub open spec fn headers_view(&self) -> Option<Map<String, String>> {
        match self.headers {
            Some(h) => Some(h@),
            None => None,
        }
    }

    /// Creates a message from its parts. Construction never fails and
    /// checks nothing: every field holds what was given.
    pub fn new(
        from: &str,
        msg_type: &str,
        data: &[u8],
        headers: Option<HashMap<String, String>>,
    ) -> (m: Self)
        ensures
            m.from@ == from@,
            m.msg_type@ == msg_type@,
            m.data@ == data@,
            m.headers == headers,
    {
        ConsumerMessage {
            from: String::from_str(from),
            msg_type: String::from_str(msg_type),
            data: boxed_bytes(data),
            headers,
        }
    }
}

impl Clone for ConsumerMessage {
    /// A copy that holds the same source, type, body and headers.
    fn clone(&self) -> (m: Self)
        ensures
            m.from@ == self.from@,
            m.msg_type@ == self.msg_type@,
            m.data@ == self.data@,
            m.headers_view() == self.headers_view(),
    {
        ConsumerMessage {
            from: self.from.clone(),
            msg_type: self.msg_type.clone(),
            data: boxed_bytes(&self.data),
            headers: self.headers.clone(),
        }
    }
}

impl Default for ConsumerMessage {
    /// The empty message: no source, no type, no body, no headers.
    fn default() -> (m: Self)
        ensures
            m.from@.len() == 0,
            m.msg_type@.len() == 0,
            m.data@.len() == 0,
            m.headers is None,
    {
        let empty: Vec<u8> = Vec::new();
        ConsumerMessage {
            from: String::new(),
            msg_type: String::new(),
            data: boxed_bytes(empty.as_slice()),
            headers: None,
        }
    }
}

} // verus!
