use vstd::prelude::*;

verus! {

broadcast use vstd::string::group_string_axioms;

/// A fact recording that a state change occurred. Events are the only values
/// allowed to mutate aggregate state, and application is deterministic given
/// (prior state, event).
#[derive(Debug, Clone, PartialEq)]
pub enum ClientEvent {
    /// Carries the complete message list after an append: prior messages
    /// followed by the newly added ones, in that order.
    MessagesAdded(Vec<String>),
    /// An intentional no-op transition, distinct from a failure.
    Paniced,
}

/// The mathematical shape of a [`ClientEvent`]: payloads as sequences of
/// character sequences.
pub enum ClientEventV {
    MessagesAdded(Seq<Seq<char>>),
    Paniced,
}

/// The view of a sequence of owned strings: each string as its character
/// sequence.
pub open spec fn strings_view(v: Seq<String>) -> Seq<Seq<char>> {
    v.map_values(|s: String| s@)
}

impl View for ClientEvent {
    type V = ClientEventV;

    open spec fn view(&self) -> ClientEventV {
        match self {
            ClientEvent::MessagesAdded(msgs) => ClientEventV::MessagesAdded(strings_view(msgs@)),
            ClientEvent::Paniced => ClientEventV::Paniced,
        }
    }
}

/// The views of a batch of events, in order.
pub open spec fn events_view(v: Seq<ClientEvent>) -> Seq<ClientEventV> {
    v.map_values(|e: ClientEvent| e@)
}

impl ClientEvent {
    /// The type tag of this event.
    pub open spec fn spec_event_type(self) -> Seq<char> {
        match self {
            ClientEvent::MessagesAdded(_) => "Messages added"@,
            ClientEvent::Paniced => "Paniced"@,
        }
    }

    /// The identity tag used for forward-compatible decoding of this event.
    pub fn event_type(&self) -> (r: String)
        ensures
            r@ == self.spec_event_type(),
    {
        match self {
            ClientEvent::MessagesAdded(_) => "Messages added".to_string(),
            ClientEvent::Paniced => "Paniced".to_string(),
        }
    }

    /// The schema version of this event.
    pub fn event_version(&self) -> (r: String)
        ensures
            r@ == "1.0"@,
    {
        "1.0".to_string()
    }
}

} // verus!
