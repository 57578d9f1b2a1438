use vstd::prelude::*;
use crate::commands::{ClientCommand, ClientCommandV, ClientError};
use crate::events::{strings_view, ClientEvent, ClientEventV};

verus! {

broadcast use vstd::string::group_string_axioms;

/// The command -> event -> state-mutation state machine.
///
/// `handle` validates a command against the current state and emits zero or
/// more events; `apply` is the only operation that mutates state, and is a
/// total, deterministic function of (prior state, event). The `Services`
/// parameter exists only for capability injection: `spec_handle` does not take
/// it, so the contract forces `handle` to decide from (state, command) alone.
pub trait Aggregate: View + Sized {
    type Command: View;

    type Event: View;

    type Error: View;

    type Services;

    /// The tag identifying this aggregate type.
    spec fn spec_aggregate_type() -> Seq<char>;

    /// What `handle` decides: the emitted events, or the domain error, as a
    /// pure function of the state and command views.
    spec fn spec_handle(s: Self::V, c: <Self::Command as View>::V) -> Result<
        Seq<<Self::Event as View>::V>,
        <Self::Error as View>::V,
    >;

    /// What `apply` does to the state view: a total function.
    spec fn spec_apply(s: Self::V, e: <Self::Event as View>::V) -> Self::V;

    fn aggregate_type() -> (r: String)
        ensures
            r@ == Self::spec_aggregate_type(),
    ;

    /// Interpret a command against the current state, emitting events on
    /// success. Never mutates state.
    fn handle(&self, command: Self::Command, services: &Self::Services) -> (r: Result<
        Vec<Self::Event>,
        Self::Error,
    >)
        ensures
            match r {
                Ok(evs) => Self::spec_handle(self@, command@) matches Ok(sv) && evs@.map_values(
                    |e: Self::Event| e@,
                ) == sv,
                Err(err) => Self::spec_handle(self@, command@) matches Err(ev) && err@ == ev,
            },
    ;

    /// Mutate the state by one event. Total: no event is refused.
    fn apply(&mut self, event: Self::Event)
        ensures
            final(self)@ == Self::spec_apply(old(self)@, event@),
    ;
}

/// The canonical message-log aggregate state: an ordered sequence of
/// messages, owned by exactly one state cell per running actor instance.
#[derive(Debug, Default)]
pub struct ClientState {
    pub messages: Vec<String>,
}

impl View for ClientState {
    type V = Seq<Seq<char>>;

    open spec fn view(&self) -> Seq<Seq<char>> {
        strings_view(self.messages@)
    }
}

/// What handling a command against a message list emits: an append command
/// always succeeds with one event carrying the full concatenated list; the
/// panic command emits the payload-free no-op event.
pub open spec fn client_handle(s: Seq<Seq<char>>, c: ClientCommandV) -> Result<
    Seq<ClientEventV>,
    ClientError,
> {
    match c {
        ClientCommandV::Add(msgs) => Ok(seq![ClientEventV::MessagesAdded(s + msgs)]),
        ClientCommandV::Panic => Ok(seq![ClientEventV::Paniced]),
    }
}

/// What applying one event does to a message list: an append event replaces
/// the list with the carried value; the no-op event leaves it unchanged.
pub open spec fn client_apply(s: Seq<Seq<char>>, e: ClientEventV) -> Seq<Seq<char>> {
    match e {
        ClientEventV::MessagesAdded(msgs) => msgs,
        ClientEventV::Paniced => s,
    }
}

/// Applying a batch of events, in order, one at a time.
pub open spec fn client_apply_all(s: Seq<Seq<char>>, evs: Seq<ClientEventV>) -> Seq<Seq<char>>
    decreases evs.len(),
{
    if evs.len() == 0 {
        s
    } else {
        client_apply_all(client_apply(s, evs[0]), evs.drop_first())
    }
}

/// The events a command makes the message-log aggregate emit: the handled
/// batch on success, no events on rejection.
pub open spec fn emitted_events(s: Seq<Seq<char>>, c: ClientCommandV) -> Seq<ClientEventV> {
    match client_handle(s, c) {
        Ok(evs) => evs,
        Err(_) => Seq::empty(),
    }
}

/// Aggregate totality: the message-log aggregate accepts every command in
/// every state, and applying the batch of events it emitted is defined for
/// the state it was emitted against, yielding the appended list for an add
/// and the unchanged list for the no-op command. `apply` itself carries no
/// precondition, so no event batch - emitted or not - is ever refused.
pub proof fn lemma_apply_total_on_emitted(s: Seq<Seq<char>>, c: ClientCommandV)
    ensures
        client_handle(s, c) is Ok,
        client_apply_all(s, emitted_events(s, c)) == (match c {
            ClientCommandV::Add(m) => s + m,
            ClientCommandV::Panic => s,
        }),
{
    let evs = emitted_events(s, c);
    assert(evs.len() == 1);
    assert(evs.drop_first() =~= Seq::<ClientEventV>::empty());
    assert(client_apply_all(client_apply(s, evs[0]), evs.drop_first()) == client_apply(s, evs[0]));
}

/// Re-applying an event to the state it produced changes nothing: event
/// application is idempotent, so a redelivered event batch is harmless.
pub proof fn lemma_apply_idempotent(s: Seq<Seq<char>>, e: ClientEventV)
    ensures
        client_apply(client_apply(s, e), e) == client_apply(s, e),
{
}

impl Aggregate for ClientState {
    type Command = ClientCommand;

    type Event = ClientEvent;

    type Error = ClientError;

    type Services = ();

    open spec fn spec_aggregate_type() -> Seq<char> {
        "client"@
    }

    open spec fn spec_handle(s: Seq<Seq<char>>, c: ClientCommandV) -> Result<
        Seq<ClientEventV>,
        ClientError,
    > {
        client_handle(s, c)
    }

    open spec fn spec_apply(s: Seq<Seq<char>>, e: ClientEventV) -> Seq<Seq<char>> {
        client_apply(s, e)
    }

    fn aggregate_type() -> (r: String) {
        "client".to_string()
    }

    fn handle(&self, command: ClientCommand, _services: &()) -> (r: Result<
        Vec<ClientEvent>,
        ClientError,
    >) {
        match command {
            ClientCommand::Add(msgs) => {
                let ghost orig: Seq<String> = self.messages@;
                let ghost added: Seq<String> = msgs@;
                let mut all = self.messages.clone();
                proof {
                    assert forall|i: int| 0 <= i < orig.len() implies all@[i] == orig[i] by {
                        assert(cloned::<String>(orig[i], all@[i]));
                    }
                    assert(all@ =~= orig);
                }
                let mut rest = msgs;
                all.append(&mut rest);
                let ev = ClientEvent::MessagesAdded(all);
                let evs = vec![ev];
                proof {
                    assert(strings_view(orig + added) =~= self@ + strings_view(added));
                    assert(evs@.map_values(|e: ClientEvent| e@) =~= seq![
                        ClientEventV::MessagesAdded(self@ + strings_view(added)),
                    ]);
                }
                Ok(evs)
            },
            ClientCommand::Panic => {
                let evs = vec![ClientEvent::Paniced];
                proof {
                    assert(evs@.map_values(|e: ClientEvent| e@) =~= seq![ClientEventV::Paniced]);
                }
                Ok(evs)
            },
        }
    }

    fn apply(&mut self, event: ClientEvent) {
        match event {
            ClientEvent::MessagesAdded(msgs) => {
                self.messages = msgs;
            },
            ClientEvent::Paniced => {},
        }
    }
}

} // verus!
