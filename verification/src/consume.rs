//! The decisions of the consume loop.
//!
//! A backend owns the loop: it receives from the broker, calls handlers and
//! answers the broker. What it has to decide in between is fixed here: for
//! each event the next state of the dispatcher and the action to perform.

use crate::dispatcher::DispatcherDefinition;
use crate::errors::MessagingError;
use crate::handler::ConsumerMessage;
use crate::registry::{lemma_routed_or_unregistered, routed, routes_to, Registry};
use vstd::prelude::*;

verus! {

/// The life of a dispatcher: it is set up, consumes, and ends with the
/// result that `consume_blocking` returns.
#[derive(Debug, PartialEq, Eq)]
pub enum DispatcherState {
    /// Registrations are being made; nothing is consumed yet.
    Unstarted,
    /// The consume loop runs.
    Consuming,
    /// The consume loop has ended, with this result.
    Stopped(Result<(), MessagingError>),
}

/// What happens to a dispatcher.
pub enum Event<'a> {
    /// `consume_blocking` was called.
    Start,
    /// The broker delivered a message.
    Delivered(&'a ConsumerMessage),
    /// A handler returned from a message.
    Handled(Result<(), MessagingError>),
    /// Consumption cannot go on: the connection is lost, no consumer could
    /// be created, or the backend met something it cannot recover from.
    Failed(MessagingError),
    /// The backend ended consumption in good order.
    Closed,
}

/// What the backend does next.
#[derive(Debug, PartialEq, Eq)]
pub enum Action {
    /// Nothing for the broker; go on.
    Continue,
    /// Call the handler registered at this slot with the delivered message.
    Invoke(usize),
    /// Acknowledge the message to the broker.
    Acknowledge,
    /// Answer the message negatively, by the backend's policy for rejected
    /// messages, and record this kind as the reason.
    Reject(MessagingError),
    /// Leave the loop and return the result held by the `Stopped` state.
    Return,
}

/// The action for a delivered message while consuming: the handler of the
/// registration that receives it, or a rejection where none does.
pub open spec fn delivery(defs: Seq<DispatcherDefinition>, msg: &ConsumerMessage) -> Action {
    match routed(defs, msg.from@, msg.msg_type@) {
        Some(slot) => Action::Invoke(slot as usize),
        None => Action::Reject(MessagingError::UnregisteredHandler),
    }
}

/// The action for a handler's result: success is acknowledged, every
/// failure becomes a rejection for `HandlerError`.
pub open spec fn settlement(result: Result<(), MessagingError>) -> Action {
    match result {
        Ok(_) => Action::Acknowledge,
        Err(_) => Action::Reject(MessagingError::HandlerError),
    }
}

/// The next state and the action for an event.
///
/// - `Start` begins consumption once; later it changes nothing.
/// - A delivered message is routed while consuming; a dispatcher that does
///   not consume rejects it for `InternalError`. The state stays.
/// - A handler's result is settled in every state. The state stays.
/// - `Failed` and `Closed` end a dispatcher that has not ended yet, with
///   the error or with success; an ended dispatcher stays as it is.
pub open spec fn transition(
    defs: Seq<DispatcherDefinition>,
    state: DispatcherState,
    event: Event<'_>,
) -> (DispatcherState, Action) {
    match event {
        Event::Start => match state {
            DispatcherState::Unstarted => (DispatcherState::Consuming, Action::Continue),
            _ => (state, Action::Continue),
        },
        Event::Delivered(msg) => match state {
            DispatcherState::Consuming => (state, delivery(defs, msg)),
            _ => (state, Action::Reject(MessagingError::InternalError)),
        },
        Event::Handled(result) => (state, settlement(result)),
        Event::Failed(error) => match state {
            DispatcherState::Stopped(_) => (state, Action::Continue),
            _ => (DispatcherState::Stopped(Err(error)), Action::Return),
        },
        Event::Closed => match state {
            DispatcherState::Stopped(_) => (state, Action::Continue),
            _ => (DispatcherState::Stopped(Ok(())), Action::Return),
        },
    }
}

impl<H> Registry<H> {
    /// Decides what follows an event: the next state of the dispatcher and
    /// the action that the backend performs.
    pub fn step(&self, state: DispatcherState, event: Event<'_>) -> (next: (DispatcherState, Action))
        ensures
            next == transition(self.definitions(), state, event),
            next.1 matches Action::Invoke(slot) ==> slot < self@.len(),
    {
        match event {
            Event::Start => match state {
                DispatcherState::Unstarted => (DispatcherState::Consuming, Action::Continue),
                _ => (state, Action::Continue),
            },
            Event::Delivered(msg) => match state {
                DispatcherState::Consuming => {
                    proof {
                        lemma_routed_or_unregistered(
                            self.definitions(),
                            msg.from@,
                            msg.msg_type@,
                        );
                    }
                    match self.route(msg) {
                        Ok(slot) => (state, Action::Invoke(slot)),
                        Err(_) => (state, Action::Reject(MessagingError::UnregisteredHandler)),
                    }
                },
                _ => (state, Action::Reject(MessagingError::InternalError)),
            },
            Event::Handled(result) => match result {
                Ok(_) => (state, Action::Acknowledge),
                Err(_) => (state, Action::Reject(MessagingError::HandlerError)),
            },
            Event::Failed(error) => match state {
                DispatcherState::Stopped(_) => (state, Action::Continue),
                _ => (DispatcherState::Stopped(Err(error)), Action::Return),
            },
            Event::Closed => match state {
                DispatcherState::Stopped(_) => (state, Action::Continue),
                _ => (DispatcherState::Stopped(Ok(())), Action::Return),
            },
        }
    }
}

/// A dispatcher without registrations that consumes rejects every delivered
/// message for `UnregisteredHandler`: it calls no handler, and it goes on
/// consuming.
pub proof fn lemma_empty_registry_rejects(
    defs: Seq<DispatcherDefinition>,
    msg: &ConsumerMessage,
)
    requires
        defs.len() == 0,
    ensures
        transition(defs, DispatcherState::Consuming, Event::Delivered(msg)) == (
            DispatcherState::Consuming,
            Action::Reject(MessagingError::UnregisteredHandler),
        ),
{
    lemma_routed_or_unregistered(defs, msg.from@, msg.msg_type@);
}

/// A handler's success is acknowledged and surfaces no error: the dispatcher
/// goes on consuming, and the action names no error kind.
pub proof fn lemma_success_is_acknowledged(defs: Seq<DispatcherDefinition>)
    ensures
        transition(defs, DispatcherState::Consuming, Event::Handled(Ok(()))) == (
            DispatcherState::Consuming,
            Action::Acknowledge,
        ),
{
}

/// A handler's failure, whatever its kind, is answered with a rejection for
/// `HandlerError`, and the dispatcher goes on consuming.
pub proof fn lemma_failure_is_rejected(defs: Seq<DispatcherDefinition>, error: MessagingError)
    ensures
        transition(defs, DispatcherState::Consuming, Event::Handled(Err(error))) == (
            DispatcherState::Consuming,
            Action::Reject(MessagingError::HandlerError),
        ),
{
}

/// What happens to a single message never changes the state of the
/// dispatcher: neither a delivery nor a handler's result ends the loop.
pub proof fn lemma_messages_keep_the_state(
    defs: Seq<DispatcherDefinition>,
    state: DispatcherState,
    event: Event<'_>,
)
    requires
        event is Delivered || event is Handled,
    ensures
        transition(defs, state, event).0 == state,
        transition(defs, state, event).1 != Action::Return,
{
}

/// A handler is called only by a consuming dispatcher, only for a delivered
/// message, and only the one of the registration that receives the message.
/// (The registrations of a registry are as many as a `usize` can count.)
pub proof fn lemma_invoke_only_the_route(
    defs: Seq<DispatcherDefinition>,
    state: DispatcherState,
    event: Event<'_>,
    slot: usize,
)
    requires
        defs.len() <= usize::MAX,
        transition(defs, state, event).1 == Action::Invoke(slot),
    ensures
        state is Consuming,
        event matches Event::Delivered(msg) && routes_to(
            defs,
            msg.from@,
            msg.msg_type@,
            slot as int,
        ),
{
    match event {
        Event::Delivered(msg) => {
            lemma_routed_or_unregistered(defs, msg.from@, msg.msg_type@);
        },
        _ => {},
    }
}

/// An ended dispatcher stays ended with the result it has.
pub proof fn lemma_stopped_is_final(
    defs: Seq<DispatcherDefinition>,
    result: Result<(), MessagingError>,
    event: Event<'_>,
)
    ensures
        transition(defs, DispatcherState::Stopped(result), event).0 == DispatcherState::Stopped(
            result,
        ),
{
}

/// The loop is left only at its end: the action `Return` comes exactly
/// with the step that takes a dispatcher, which had not ended, to `Stopped`.
pub proof fn lemma_return_ends_the_loop(
    defs: Seq<DispatcherDefinition>,
    state: DispatcherState,
    event: Event<'_>,
)
    ensures
        transition(defs, state, event).1 == Action::Return <==> (!(state is Stopped) && transition(
            defs,
            state,
            event,
        ).0 is Stopped),
{
}

} // verus!
