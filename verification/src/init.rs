//! Exactly-once, failure-caching initialization of a provider.
//!
//! A provider starts `Uninitialized`.  The first access moves it to
//! `Initializing` and tells the caller to construct it; the outcome of that
//! construction moves it to `Ready` or `Failed`, where it stays.  Nothing
//! else changes the state, so construction starts at most once however many
//! accesses arrive and in whatever order.
use vstd::prelude::*;

verus! {

/// Where a provider stands in its life.
#[derive(Debug)]
pub enum InitState<P, E> {
    /// No access has arrived yet.
    Uninitialized,
    /// Construction was started and has not ended.
    Initializing,
    /// Construction succeeded.
    Ready(P),
    /// Construction failed; the cause is kept.
    Failed(E),
}

/// What the caller of an access has to do next.
#[derive(Clone, Copy, Debug, PartialEq, Eq, Structural)]
pub enum Directive {
    /// Construct the provider and report the outcome.
    Build,
    /// Construction is running elsewhere: wait for it to end, then look again.
    Wait,
    /// The provider is `Ready` or `Failed`: read it.
    Done,
}

/// What can happen to a provider.
pub enum Event<P, E> {
    /// An access arrives, from any thread.
    Access,
    /// The construction that was started ends with this outcome.
    Resolved(Result<P, E>),
    /// The state is read without asking for initialization.
    Query,
}

impl<P, E> InitState<P, E> {
    /// `Ready` and `Failed` are terminal.
    pub open spec fn is_terminal(self) -> bool {
        self is Ready || self is Failed
    }

    /// The terminal state that an outcome of construction leads to.
    pub open spec fn resolved(outcome: Result<P, E>) -> Self {
        match outcome {
            Ok(provider) => InitState::Ready(provider),
            Err(error) => InitState::Failed(error),
        }
    }

    /// The provider, if the state is `Ready`.
    pub open spec fn provider(self) -> Option<P> {
        match self {
            InitState::Ready(provider) => Some(provider),
            _ => None,
        }
    }

    /// The cached cause, if the state is `Failed`.
    pub open spec fn init_error(self) -> Option<E> {
        match self {
            InitState::Failed(error) => Some(error),
            _ => None,
        }
    }

    /// What an access in this state has to do.
    pub open spec fn directive(self) -> Directive {
        match self {
            InitState::Uninitialized => Directive::Build,
            InitState::Initializing => Directive::Wait,
            _ => Directive::Done,
        }
    }

    /// The state after one event.
    pub open spec fn step(self, event: Event<P, E>) -> Self {
        match (self, event) {
            (InitState::Uninitialized, Event::Access) => InitState::Initializing,
            (InitState::Initializing, Event::Resolved(outcome)) => Self::resolved(outcome),
            _ => self,
        }
    }

    /// Whether an event in this state starts a construction.
    pub open spec fn starts_construction(self, event: Event<P, E>) -> bool {
        self is Uninitialized && event is Access
    }

    /// The state after a sequence of events.
    pub open spec fn run(self, events: Seq<Event<P, E>>) -> Self
        decreases events.len(),
    {
        if events.len() == 0 {
            self
        } else {
            self.step(events[0]).run(events.drop_first())
        }
    }

    /// How many constructions a sequence of events starts.
    pub open spec fn constructions(self, events: Seq<Event<P, E>>) -> nat
        decreases events.len(),
    {
        if events.len() == 0 {
            0
        } else {
            let first: nat = if self.starts_construction(events[0]) {
                1
            } else {
                0
            };
            first + self.step(events[0]).constructions(events.drop_first())
        }
    }
}

/// Whether a sequence of events holds an access.
pub open spec fn has_access<P, E>(events: Seq<Event<P, E>>) -> bool {
    exists|i: int| 0 <= i < events.len() && events[i] is Access
}

/// Once a state is no longer `Uninitialized`, no sequence of events starts a
/// construction or brings `Uninitialized` back.
pub proof fn no_construction_after_the_first<P, E>(state: InitState<P, E>, events: Seq<Event<P, E>>)
    requires
        !(state is Uninitialized),
    ensures
        state.constructions(events) == 0,
        !(state.run(events) is Uninitialized),
    decreases events.len(),
{
    if events.len() > 0 {
        no_construction_after_the_first(state.step(events[0]), events.drop_first());
    }
}

/// From `Uninitialized`, any sequence of events starts exactly one
/// construction if it holds an access, and none if it holds none.  The
/// sequence may be any interleaving of the accesses of any number of
/// threads: however many of them arrive, and in whatever order, one of them
/// builds.
pub proof fn construction_starts_exactly_once<P, E>(events: Seq<Event<P, E>>)
    ensures
        InitState::<P, E>::Uninitialized.constructions(events) == (if has_access(events) {
            1nat
        } else {
            0nat
        }),
    decreases events.len(),
{
    let start = InitState::<P, E>::Uninitialized;
    if events.len() == 0 {
    } else {
        let rest = events.drop_first();
        if events[0] is Access {
            assert(has_access(events));
            no_construction_after_the_first(start.step(events[0]), rest);
        } else {
            assert(start.step(events[0]) == start);
            construction_starts_exactly_once(rest);
            if has_access(rest) {
                let i = choose|i: int| 0 <= i < rest.len() && rest[i] is Access;
                assert(events[i + 1] is Access);
            }
            if has_access(events) {
                let i = choose|i: int| 0 <= i < events.len() && events[i] is Access;
                assert(rest[i - 1] is Access);
            }
        }
    }
}

/// A terminal state is permanent: whatever events follow, the state stays
/// what it is and no construction starts.  In particular a failure is never
/// retried, and every later reader sees the same provider or the same error.
pub proof fn terminal_state_is_permanent<P, E>(state: InitState<P, E>, events: Seq<Event<P, E>>)
    requires
        state.is_terminal(),
    ensures
        state.run(events) == state,
        state.constructions(events) == 0,
    decreases events.len(),
{
    if events.len() > 0 {
        assert(state.step(events[0]) == state);
        terminal_state_is_permanent(state, events.drop_first());
    }
}

/// No reader sees a provider that was not the outcome of the one
/// construction: from `Uninitialized`, a `Ready` or `Failed` state reached
/// by any sequence of events holds the outcome of a `Resolved` event of that
/// sequence.
pub proof fn terminal_state_comes_from_an_outcome<P, E>(
    state: InitState<P, E>,
    events: Seq<Event<P, E>>,
)
    requires
        !state.is_terminal(),
        state.run(events).is_terminal(),
    ensures
        exists|i: int|
            0 <= i < events.len() && events[i] is Resolved && state.run(events) == InitState::<
                P,
                E,
            >::resolved(events[i]->Resolved_0),
    decreases events.len(),
{
    if events.len() > 0 {
        let next = state.step(events[0]);
        let rest = events.drop_first();
        if next.is_terminal() {
            terminal_state_is_permanent(next, rest);
            assert(events[0] is Resolved);
        } else {
            terminal_state_comes_from_an_outcome(next, rest);
            let i = choose|i: int|
                0 <= i < rest.len() && rest[i] is Resolved && next.run(rest) == InitState::<
                    P,
                    E,
                >::resolved(rest[i]->Resolved_0);
            assert(events[i + 1] == rest[i]);
        }
    }
}

/// Several providers, each under its name.
pub type Registry<P, E> = Map<Seq<char>, InitState<P, E>>;

/// The registry after an event that addresses the provider called `name`.
/// An event for a name that the registry does not hold changes nothing.
pub open spec fn registry_step<P, E>(
    registry: Registry<P, E>,
    name: Seq<char>,
    event: Event<P, E>,
) -> Registry<P, E> {
    if registry.dom().contains(name) {
        registry.insert(name, registry[name].step(event))
    } else {
        registry
    }
}

/// The registry after a sequence of addressed events.
pub open spec fn registry_run<P, E>(
    registry: Registry<P, E>,
    events: Seq<(Seq<char>, Event<P, E>)>,
) -> Registry<P, E>
    decreases events.len(),
{
    if events.len() == 0 {
        registry
    } else {
        registry_run(registry_step(registry, events[0].0, events[0].1), events.drop_first())
    }
}

/// The events of a sequence that address `name`, in order.
pub open spec fn events_for<P, E>(events: Seq<(Seq<char>, Event<P, E>)>, name: Seq<char>) -> Seq<
    Event<P, E>,
>
    decreases events.len(),
{
    if events.len() == 0 {
        Seq::empty()
    } else if events[0].0 == name {
        seq![events[0].1] + events_for(events.drop_first(), name)
    } else {
        events_for(events.drop_first(), name)
    }
}

/// Providers do not interfere: after any sequence of addressed events, the
/// state of each provider is what its own events alone lead to.  What
/// happens to a provider under another name, a failure included, leaves it
/// untouched.
pub proof fn providers_do_not_interfere<P, E>(
    registry: Registry<P, E>,
    events: Seq<(Seq<char>, Event<P, E>)>,
    name: Seq<char>,
)
    requires
        registry.dom().contains(name),
    ensures
        registry_run(registry, events).dom().contains(name),
        registry_run(registry, events)[name] == registry[name].run(events_for(events, name)),
    decreases events.len(),
{
    if events.len() > 0 {
        let next = registry_step(registry, events[0].0, events[0].1);
        let rest = events.drop_first();
        providers_do_not_interfere(next, rest, name);
        if events[0].0 == name {
            let own = events_for(events, name);
            assert(own[0] == events[0].1);
            assert(own.drop_first() =~= events_for(rest, name));
        }
    }
}

/// A provider that is built at most once.
#[derive(Debug)]
pub struct ProviderInitializer<P, E> {
    state: InitState<P, E>,
}

impl<P, E> View for ProviderInitializer<P, E> {
    type V = InitState<P, E>;

    closed spec fn view(&self) -> InitState<P, E> {
        self.state
    }
}

impl<P, E> ProviderInitializer<P, E> {
    /// A provider that no access has reached yet.
    pub fn new() -> (fresh: Self)
        ensures
            fresh@ == InitState::<P, E>::Uninitialized,
    {
        ProviderInitializer { state: InitState::Uninitialized }
    }

    /// Records an access and says what the caller has to do.  Only the first
    /// access of all is told to build.
    pub fn begin(&mut self) -> (directive: Directive)
        ensures
            directive == old(self)@.directive(),
            directive is Build <==> old(self)@.starts_construction(Event::Access),
            final(self)@ == old(self)@.step(Event::Access),
        no_unwind
    {
        match &self.state {
            InitState::Uninitialized => {
                self.state = InitState::Initializing;
                Directive::Build
            },
            InitState::Initializing => Directive::Wait,
            _ => Directive::Done,
        }
    }

    /// Records the outcome of the construction that `begin` asked for.  In
    /// any state but `Initializing` the outcome is dropped and the state
    /// kept; the result says whether the outcome was taken.
    pub fn resolve(&mut self, outcome: Result<P, E>) -> (taken: bool)
        ensures
            taken == (old(self)@ is Initializing),
            final(self)@ == old(self)@.step(Event::Resolved(outcome)),
        no_unwind
    {
        match &self.state {
            InitState::Initializing => {
                match outcome {
                    Ok(provider) => {
                        self.state = InitState::Ready(provider);
                    },
                    Err(error) => {
                        self.state = InitState::Failed(error);
                    },
                }
                true
            },
            _ => false,
        }
    }

    /// The provider if it is `Ready`.  Never starts initialization.
    pub fn peek(&self) -> (provider: Option<&P>)
        ensures
            provider == (match self@ {
                InitState::Ready(p) => Some(&p),
                _ => None,
            }),
    {
        match &self.state {
            InitState::Ready(p) => Some(p),
            _ => None,
        }
    }

    /// The cause of the failure if initialization was tried and failed.
    /// Never starts initialization.
    pub fn get_init_error(&self) -> (error: Option<&E>)
        ensures
            error == (match self@ {
                InitState::Failed(e) => Some(&e),
                _ => None,
            }),
    {
        match &self.state {
            InitState::Failed(e) => Some(e),
            _ => None,
        }
    }

    /// The accessor.  The first call of all runs `build` and keeps its
    /// outcome; every other call leaves `build` alone and the state as it
    /// is.  The result is the provider if the state is then `Ready`.
    pub fn get<F: FnOnce() -> Result<P, E>>(&mut self, build: F) -> (provider: Option<&P>)
        requires
            old(self)@ is Uninitialized ==> build.requires(()),
        ensures
            old(self)@ is Uninitialized ==> exists|outcome: Result<P, E>|
                #![trigger build.ensures((), outcome)]
                build.ensures((), outcome) && final(self)@ == InitState::<P, E>::resolved(outcome),
            !(old(self)@ is Uninitialized) ==> final(self)@ == old(self)@,
            provider == (match final(self)@ {
                InitState::Ready(p) => Some(&p),
                _ => None,
            }),
    {
        match self.begin() {
            Directive::Build => {
                let outcome = build();
                self.resolve(outcome);
            },
            _ => {},
        }
        self.peek()
    }
}

} // verus!
