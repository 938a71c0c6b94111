//! The registrations of a dispatcher, and the choice of the one registration
//! that a message goes to.
//!
//! Registering the same pair of name and filter twice keeps both
//! registrations, so the count shows it, and the later one receives the
//! messages: the last registration wins.

use crate::dispatcher::DispatcherDefinition;
use crate::errors::MessagingError;
use crate::handler::ConsumerMessage;
use vstd::prelude::*;

verus! {

/// No definition takes a message that arrived on `from` with the type tag
/// `msg_type`.
pub open spec fn unregistered(
    defs: Seq<DispatcherDefinition>,
    from: Seq<char>,
    msg_type: Seq<char>,
) -> bool {
    forall|j: int| 0 <= j < defs.len() ==> !(#[trigger] defs[j]).accepts(from, msg_type)
}

/// The registration at `slot` is the one that receives a message which
/// arrived on `from` with the type tag `msg_type`:
/// it takes the message; if any definition with a filter takes the message,
/// it has a filter itself; and whatever takes the message and was registered
/// later is a definition without a filter that this one, with its filter,
/// outranks.
pub open spec fn routes_to(
    defs: Seq<DispatcherDefinition>,
    from: Seq<char>,
    msg_type: Seq<char>,
    slot: int,
) -> bool {
    &&& 0 <= slot < defs.len()
    &&& defs[slot].accepts(from, msg_type)
    &&& forall|j: int|
        0 <= j < defs.len() && (#[trigger] defs[j]).accepts(from, msg_type) && defs[j].filtered()
            ==> defs[slot].filtered()
    &&& forall|j: int|
        slot < j < defs.len() && (#[trigger] defs[j]).accepts(from, msg_type) ==> defs[slot].filtered()
            && !defs[j].filtered()
}

/// The slot that receives the message, where there is one.
pub open spec fn routed(defs: Seq<DispatcherDefinition>, from: Seq<char>, msg_type: Seq<char>) -> Option<
    int,
> {
    if exists|slot: int| routes_to(defs, from, msg_type, slot) {
        Some(choose|slot: int| routes_to(defs, from, msg_type, slot))
    } else {
        None
    }
}

/// At most one registration receives a message.
pub proof fn lemma_route_is_unique(
    defs: Seq<DispatcherDefinition>,
    from: Seq<char>,
    msg_type: Seq<char>,
    a: int,
    b: int,
)
    requires
        routes_to(defs, from, msg_type, a),
        routes_to(defs, from, msg_type, b),
    ensures
        a == b,
{
    if a < b {
        assert(defs[b].accepts(from, msg_type));
        assert(defs[a].accepts(from, msg_type));
    } else if b < a {
        assert(defs[a].accepts(from, msg_type));
        assert(defs[b].accepts(from, msg_type));
    }
}

/// The registration that receives a message is the routed one.
pub proof fn lemma_routed_is_the_route(
    defs: Seq<DispatcherDefinition>,
    from: Seq<char>,
    msg_type: Seq<char>,
    slot: int,
)
    requires
        routes_to(defs, from, msg_type, slot),
    ensures
        routed(defs, from, msg_type) == Some(slot),
{
    let chosen: int = choose|s: int| routes_to(defs, from, msg_type, s);
    lemma_route_is_unique(defs, from, msg_type, slot, chosen);
}

/// Every message that some definition takes has a registration that
/// receives it.
pub proof fn lemma_taken_message_is_routed(
    defs: Seq<DispatcherDefinition>,
    from: Seq<char>,
    msg_type: Seq<char>,
)
    requires
        !unregistered(defs, from, msg_type),
    ensures
        exists|slot: int| routes_to(defs, from, msg_type, slot),
    decreases defs.len(),
{
    let last: int = defs.len() - 1;
    let front = defs.drop_last();
    assert(defs.len() > 0);
    assert forall|j: int| 0 <= j < front.len() implies front[j] == defs[j] by {}
    if defs[last].accepts(from, msg_type) && defs[last].filtered() {
        assert(routes_to(defs, from, msg_type, last));
    } else if exists|j: int|
        0 <= j < front.len() && (#[trigger] front[j]).accepts(from, msg_type) && front[j].filtered() {
        lemma_taken_message_is_routed(front, from, msg_type);
        let slot: int = choose|s: int| routes_to(front, from, msg_type, s);
        assert(front[slot].filtered());
        assert forall|j: int|
            0 <= j < defs.len() && (#[trigger] defs[j]).accepts(from, msg_type)
                && defs[j].filtered() implies defs[slot].filtered() by {}
        assert forall|j: int|
            slot < j < defs.len() && (#[trigger] defs[j]).accepts(
                from,
                msg_type,
            ) implies defs[slot].filtered() && !defs[j].filtered() by {
            if j < last {
                assert(front[j].accepts(from, msg_type));
            }
        }
        assert(routes_to(defs, from, msg_type, slot));
    } else if defs[last].accepts(from, msg_type) {
        assert forall|j: int|
            0 <= j < defs.len() && (#[trigger] defs[j]).accepts(from, msg_type)
                && defs[j].filtered() implies defs[last].filtered() by {
            if j < last {
                assert(front[j].accepts(from, msg_type) && front[j].filtered());
            }
        }
        assert(routes_to(defs, from, msg_type, last));
    } else {
        assert(!unregistered(front, from, msg_type)) by {
            let j: int = choose|j: int|
                0 <= j < defs.len() && (#[trigger] defs[j]).accepts(from, msg_type);
            assert(front[j].accepts(from, msg_type));
        }
        lemma_taken_message_is_routed(front, from, msg_type);
        let slot: int = choose|s: int| routes_to(front, from, msg_type, s);
        assert forall|j: int|
            0 <= j < defs.len() && (#[trigger] defs[j]).accepts(from, msg_type)
                && defs[j].filtered() implies defs[slot].filtered() by {
            assert(front[j].accepts(from, msg_type));
        }
        assert forall|j: int|
            slot < j < defs.len() && (#[trigger] defs[j]).accepts(
                from,
                msg_type,
            ) implies defs[slot].filtered() && !defs[j].filtered() by {
            assert(front[j].accepts(from, msg_type));
        }
        assert(routes_to(defs, from, msg_type, slot));
    }
}

/// A message has no route if and only if no definition takes it; a message
/// that has a route goes to a registration that takes it.
pub proof fn lemma_routed_or_unregistered(
    defs: Seq<DispatcherDefinition>,
    from: Seq<char>,
    msg_type: Seq<char>,
)
    ensures
        routed(defs, from, msg_type) is None <==> unregistered(defs, from, msg_type),
        routed(defs, from, msg_type) matches Some(slot) ==> routes_to(defs, from, msg_type, slot),
{
    if unregistered(defs, from, msg_type) {
        assert forall|slot: int| !routes_to(defs, from, msg_type, slot) by {
            if 0 <= slot < defs.len() {
                assert(!defs[slot].accepts(from, msg_type));
            }
        }
    } else {
        lemma_taken_message_is_routed(defs, from, msg_type);
    }
}

/// Where the same pair of name and filter was registered twice, the earlier
/// registration receives no message: the last registration wins.
pub proof fn lemma_last_registration_wins(
    defs: Seq<DispatcherDefinition>,
    from: Seq<char>,
    msg_type: Seq<char>,
    earlier: int,
    later: int,
)
    requires
        0 <= earlier < later < defs.len(),
        defs[earlier].same_pair(&defs[later]),
    ensures
        routed(defs, from, msg_type) != Some(earlier),
{
    lemma_routed_or_unregistered(defs, from, msg_type);
    if routed(defs, from, msg_type) == Some(earlier) {
        assert(defs[later].accepts(from, msg_type));
    }
}

/// Where a definition with a filter and one without both take a message,
/// the message goes to a definition with a filter: the more specific match
/// wins over the catch-all.
pub proof fn lemma_filter_outranks_catch_all(
    defs: Seq<DispatcherDefinition>,
    from: Seq<char>,
    msg_type: Seq<char>,
    specific: int,
)
    requires
        0 <= specific < defs.len(),
        defs[specific].filtered(),
        defs[specific].accepts(from, msg_type),
    ensures
        routed(defs, from, msg_type) matches Some(slot) && defs[slot].filtered(),
{
    lemma_routed_or_unregistered(defs, from, msg_type);
}

/// One registration: a definition and the handler bound to it.
pub struct Registration<H> {
    /// What the handler wants to receive.
    pub definition: DispatcherDefinition,
    /// The handler, shared with whoever else holds it.
    pub handler: H,
}

/// The registrations of a dispatcher, in the order in which they were made.
/// The slot of a registration is its position in that order.
pub struct Registry<H> {
    entries: Vec<Registration<H>>,
}

impl<H> View for Registry<H> {
    type V = Seq<Registration<H>>;

    closed spec fn view(&self) -> Seq<Registration<H>> {
        self.entries@
    }
}

impl<H> Registry<H> {
    /// The registered definitions, by slot.
    pub open spec fn definitions(&self) -> Seq<DispatcherDefinition> {
        self@.map_values(|r: Registration<H>| r.definition)
    }

    /// The registered handlers, by slot.
    pub open spec fn handlers(&self) -> Seq<H> {
        self@.map_values(|r: Registration<H>| r.handler)
    }

    /// A registry without registrations.
    pub fn new() -> (registry: Self)
        ensures
            registry@.len() == 0,
    {
        Registry { entries: Vec::new() }
    }

    /// The number of registrations made, duplicates included.
    pub fn len(&self) -> (n: usize)
        ensures
            n == self@.len(),
    {
        self.entries.len()
    }

    /// Binds a handler to a definition and hands the registry back, so that
    /// registrations can be chained. The new registration takes the next
    /// slot, and no earlier registration changes.
    pub fn register(self, definition: &DispatcherDefinition, handler: H) -> (registry: Self)
        ensures
            registry@ == self@.push(Registration { definition: *definition, handler }),
    {
        let mut entries = self.entries;
        entries.push(Registration { definition: definition.clone(), handler });
        Registry { entries }
    }

    /// The handler registered at a slot, where the slot was given out.
    pub fn handler(&self, slot: usize) -> (found: Option<&H>)
        ensures
            found == if slot < self@.len() {
                Some(&self.handlers()[slot as int])
            } else {
                None
            },
    {
        if slot < self.entries.len() {
            Some(&self.entries[slot].handler)
        } else {
            None
        }
    }

    /// Chooses the registration that receives a message, by the name it
    /// arrived on and its type tag. A message that no definition takes is
    /// answered with `UnregisteredHandler`.
    pub fn route(&self, msg: &ConsumerMessage) -> (target: Result<usize, MessagingError>)
        ensures
            match target {
                Ok(slot) => routed(self.definitions(), msg.from@, msg.msg_type@) == Some(
                    slot as int,
                ),
                Err(e) => e == MessagingError::UnregisteredHandler && routed(
                    self.definitions(),
                    msg.from@,
                    msg.msg_type@,
                ) is None,
            },
    {
        let ghost defs = self.definitions();
        let ghost from = msg.from@;
        let ghost msg_type = msg.msg_type@;
        let mut specific: Option<usize> = None;
        let mut catch_all: Option<usize> = None;
        let mut k: usize = 0;
        while k < self.entries.len()
            invariant
                k <= self.entries.len(),
                defs == self.definitions(),
                from == msg.from@,
                msg_type == msg.msg_type@,
                match specific {
                    Some(i) => i < k && defs[i as int].accepts(from, msg_type)
                        && defs[i as int].filtered(),
                    None => true,
                },
                match catch_all {
                    Some(i) => i < k && defs[i as int].accepts(from, msg_type)
                        && !defs[i as int].filtered(),
                    None => true,
                },
                forall|j: int|
                    0 <= j < k && (#[trigger] defs[j]).accepts(from, msg_type) ==> if defs[j].filtered() {
                        specific matches Some(i) && j <= i
                    } else {
                        catch_all matches Some(i) && j <= i
                    },
            decreases self.entries.len() - k,
        {
            let definition = &self.entries[k].definition;
            assert(*definition == defs[k as int]);
            if definition.matches(msg) {
                if definition.msg_type.is_some() {
                    specific = Some(k);
                } else {
                    catch_all = Some(k);
                }
            }
            k += 1;
        }
        match (specific, catch_all) {
            (Some(slot), _) => {
                proof {
                    assert(routes_to(defs, from, msg_type, slot as int));
                    lemma_routed_is_the_route(defs, from, msg_type, slot as int);
                }
                Ok(slot)
            },
            (None, Some(slot)) => {
                proof {
                    assert(routes_to(defs, from, msg_type, slot as int));
                    lemma_routed_is_the_route(defs, from, msg_type, slot as int);
                }
                Ok(slot)
            },
            (None, None) => {
                proof {
                    assert(unregistered(defs, from, msg_type));
                    lemma_routed_or_unregistered(defs, from, msg_type);
                }
                Err(MessagingError::UnregisteredHandler)
            },
        }
    }
}

} // verus!
