//! Subscription definitions: what a handler wants to receive, and which
//! messages a definition takes.

use crate::handler::ConsumerMessage;
use crate::text::{borrowed_text, owned_text, to_owned_text};
use vstd::prelude::*;

verus! {

/// What a handler wants to receive: a queue or topic name, and optionally
/// the only message type it takes.
#[derive(Debug)]
pub struct DispatcherDefinition {
    /// The name of the queue or topic to subscribe to.
    pub name: String,
    /// The message type to take; without one, every type is taken.
    pub msg_type: Option<String>,
}

impl DispatcherDefinition {
    /// Whether the definition takes a message that arrived on `from` with
    /// the type tag `msg_type`: the name must be the same, and a filter,
    /// where there is one, must equal the tag.
    pub open spec fn accepts(&self, from: Seq<char>, msg_type: Seq<char>) -> bool {
        &&& self.name@ == from
        &&& match self.msg_type {
            Some(filter) => filter@ == msg_type,
            None => true,
        }
    }

    /// Whether the definition carries a type filter.
    pub open spec fn filtered(&self) -> bool {
        self.msg_type is Some
    }

    /// Whether two definitions are the same pair of name and filter.
    pub open spec fn same_pair(&self, other: &DispatcherDefinition) -> bool {
        &&& self.name@ == other.name@
        &&& owned_text(self.msg_type) == owned_text(other.msg_type)
    }

    /// Creates a definition from a name and an optional type filter.
    /// Construction never fails and checks nothing.
    pub fn new(name: &str, msg_type: Option<&str>) -> (d: Self)
        ensures
            d.name@ == name@,
            owned_text(d.msg_type) == borrowed_text(msg_type),
    {
        DispatcherDefinition { name: String::from_str(name), msg_type: to_owned_text(msg_type) }
    }

    /// Decides whether the definition takes the message.
    pub fn matches(&self, msg: &ConsumerMessage) -> (taken: bool)
        ensures
            taken == self.accepts(msg.from@, msg.msg_type@),
    {
        if self.name != msg.from {
            return false;
        }
        match &self.msg_type {
            Some(filter) => *filter == msg.msg_type,
            None => true,
        }
    }
}

impl Clone for DispatcherDefinition {
    /// A copy with the same name and the same filter.
    fn clone(&self) -> (d: Self)
        ensures
            d == *self,
    {
        let msg_type = match &self.msg_type {
            Some(filter) => Some(filter.clone()),
            None => None,
        };
        DispatcherDefinition { name: self.name.clone(), msg_type }
    }
}

/// A definition without a type filter takes every message that arrived on
/// its name, whatever the type of the message.
pub proof fn lemma_unfiltered_takes_every_type(d: DispatcherDefinition, m: ConsumerMessage)
    requires
        d.msg_type is None,
        m.from@ == d.name@,
    ensures
        d.accepts(m.from@, m.msg_type@),
{
}

/// A definition with the type filter `t` takes a message if and only if the
/// message arrived on its name and carries exactly the type `t`.
pub proof fn lemma_filtered_takes_exactly_its_type(
    d: DispatcherDefinition,
    t: String,
    m: ConsumerMessage,
)
    requires
        d.msg_type == Some(t),
    ensures
        d.accepts(m.from@, m.msg_type@) <==> (m.from@ == d.name@ && m.msg_type@ == t@),
{
}

} // verus!
