//! Providers: what is declared of them, how one is built through the tracing
//! backend, and the accessor that builds it on first use.
use crate::init::{Directive, InitState, ProviderInitializer};
use crate::probe::{ProbeDefinition, ProbeSignature, ProbeToken, ProviderProbe};
use crate::text::str_eq;
use crate::wire::WireType;
use vstd::prelude::*;

verus! {

/// What a provider declaration says, as plain values.
pub struct ProviderSignature {
    pub name: Seq<char>,
    pub probes: Seq<ProbeSignature>,
}

/// The declarations of a list of probes.
pub open spec fn signatures(probes: Seq<ProbeDefinition>) -> Seq<ProbeSignature> {
    probes.map_values(|probe: ProbeDefinition| probe@)
}

/// Whether no two probes of a list have the same name.
pub open spec fn unique_names(probes: Seq<ProbeSignature>) -> bool {
    forall|i: int, j: int| 0 <= i < j < probes.len() ==> probes[i].name != probes[j].name
}

/// Whether a list of probes holds one called `name`.
pub open spec fn has_name(probes: Seq<ProbeSignature>, name: Seq<char>) -> bool {
    exists|i: int| 0 <= i < probes.len() && probes[i].name == name
}

/// A declared provider: its name and its probes, no two of them under the
/// same name.
pub struct ProviderDefinition {
    name: String,
    probes: Vec<ProbeDefinition>,
}

impl View for ProviderDefinition {
    type V = ProviderSignature;

    closed spec fn view(&self) -> ProviderSignature {
        ProviderSignature { name: self.name@, probes: signatures(self.probes@) }
    }
}

impl ProviderDefinition {
    #[verifier::type_invariant]
    spec fn names_differ(self) -> bool {
        unique_names(signatures(self.probes@))
    }

    /// A provider without probes.
    pub fn new(name: &str) -> (definition: Self)
        ensures
            definition@ == (ProviderSignature { name: name@, probes: Seq::empty() }),
    {
        let definition = ProviderDefinition { name: String::from_str(name), probes: Vec::new() };
        assert(signatures(definition.probes@) =~= Seq::empty());
        definition
    }

    /// The name of the provider.
    pub fn name(&self) -> (name: &str)
        ensures
            name@ == self@.name,
    {
        self.name.as_str()
    }

    /// The number of probes.
    pub fn probe_count(&self) -> (n: usize)
        ensures
            n == self@.probes.len(),
            unique_names(self@.probes),
    {
        proof {
            use_type_invariant(self);
        }
        self.probes.len()
    }

    /// The probe at `index`, if there is one.
    pub fn probe(&self, index: usize) -> (probe: Option<&ProbeDefinition>)
        ensures
            index < self@.probes.len() ==> probe is Some && probe->Some_0@ == self@.probes[
                index as int
            ],
            index >= self@.probes.len() ==> probe is None,
    {
        if index < self.probes.len() {
            Some(&self.probes[index])
        } else {
            None
        }
    }

    /// Where the probe called `name` stands, if there is one.
    pub fn position(&self, name: &str) -> (found: Option<usize>)
        ensures
            found is Some <==> has_name(self@.probes, name@),
            found matches Some(index) ==> index < self@.probes.len() && self@.probes[index as int].name
                == name@,
    {
        let mut i: usize = 0;
        while i < self.probes.len()
            invariant
                i <= self.probes.len(),
                forall|j: int| 0 <= j < i ==> (#[trigger] self.probes@[j])@.name != name@,
            decreases self.probes.len() - i,
        {
            if str_eq(self.probes[i].name.as_str(), name) {
                assert(signatures(self.probes@)[i as int].name == name@);
                return Some(i);
            }
            i += 1;
        }
        assert forall|j: int| 0 <= j < self@.probes.len() implies self@.probes[j].name
            != name@ by {
            assert(self.probes@[j]@.name != name@);
        }
        None
    }

    /// Adds a probe after those declared, unless one of that name is there
    /// already; says whether it was added.
    pub fn add_probe(&mut self, probe: ProbeDefinition) -> (added: bool)
        ensures
            added == !has_name(old(self)@.probes, probe@.name),
            added ==> final(self)@ == (ProviderSignature {
                name: old(self)@.name,
                probes: old(self)@.probes.push(probe@),
            }),
            !added ==> final(self)@ == old(self)@,
    {
        proof {
            use_type_invariant(&*self);
        }
        match self.position(probe.name.as_str()) {
            Some(_) => false,
            None => {
                let ghost before = signatures(self.probes@);
                let ghost new = probe@;
                assert(unique_names(before.push(new))) by {
                    assert forall|i: int, j: int| 0 <= i < j < before.push(new).len() implies before.push(
                        new,
                    )[i].name != before.push(new)[j].name by {
                        if j == before.len() {
                            assert(before[i].name != new.name);
                        }
                    }
                }
                assert(signatures(self.probes@.push(probe)) =~= before.push(new));
                assert(signatures(Seq::<ProbeDefinition>::empty()) =~= Seq::empty());
                let mut probes: Vec<ProbeDefinition> = Vec::new();
                core::mem::swap(&mut self.probes, &mut probes);
                probes.push(probe);
                core::mem::swap(&mut self.probes, &mut probes);
                true
            },
        }
    }
}

/// The backend's builder of one provider.
///
/// The backend may refuse any step (a name used twice, no resources left,
/// a platform without tracing), so nothing is promised of the results.  The
/// builder is handed on from step to step: each step that succeeds gives
/// back the builder to go on with.
pub trait ProviderBuilder: Sized {
    /// What the backend hands out for a registered probe.
    type Token: ProbeToken;

    /// The backend's finished provider, kept for as long as its probes are.
    type Provider;

    /// What the backend reports when it refuses.
    type Error;

    /// Registers one probe under its name, with the representations of its
    /// arguments in order, and gives the builder back with the probe's
    /// token.
    fn add_probe(self, name: &str, arg_types: &Vec<WireType>) -> Result<
        (Self, Self::Token),
        Self::Error,
    >;

    /// Finishes the provider.
    fn build(self) -> Result<Self::Provider, Self::Error>;
}

/// The platform tracing backend.
pub trait Tracer {
    type Builder: ProviderBuilder;

    /// Begins a provider under `name`.
    fn define_provider(&self, name: &str) -> Result<
        Self::Builder,
        <Self::Builder as ProviderBuilder>::Error,
    >;
}

/// A built provider: its declaration, the token of each of its probes in the
/// order of the declaration, and the backend's provider.  Nothing in it
/// changes after construction.
pub struct Provider<B: ProviderBuilder> {
    definition: ProviderDefinition,
    tokens: Vec<B::Token>,
    backend: B::Provider,
}

impl<B: ProviderBuilder> Provider<B> {
    #[verifier::type_invariant]
    spec fn one_token_per_probe(self) -> bool {
        self.tokens@.len() == self.definition@.probes.len()
    }

    /// The declaration the provider was built from.
    pub closed spec fn signature(&self) -> ProviderSignature {
        self.definition@
    }

    /// The tokens of the probes, in the order of the declaration.
    pub closed spec fn tokens(&self) -> Seq<B::Token> {
        self.tokens@
    }

    /// The backend's provider.
    pub closed spec fn backend(&self) -> B::Provider {
        self.backend
    }

    /// The name of the provider.
    pub fn name(&self) -> (name: &str)
        ensures
            name@ == self.signature().name,
    {
        self.definition.name()
    }

    /// The number of probes.
    pub fn probe_count(&self) -> (n: usize)
        ensures
            n == self.signature().probes.len(),
            n == self.tokens().len(),
            unique_names(self.signature().probes),
    {
        proof {
            use_type_invariant(self);
        }
        self.definition.probe_count()
    }

    /// The handle of the probe at `index`.  It is absent only where the
    /// declaration has no probe at `index`.
    pub fn probe(&self, index: usize) -> (probe: Option<ProviderProbe<'_, B::Token>>)
        ensures
            index < self.signature().probes.len() ==> probe is Some && probe->Some_0.signature()
                == self.signature().probes[index as int] && probe->Some_0.token() == self.tokens()[
                index as int
            ],
            index >= self.signature().probes.len() ==> probe is None,
    {
        proof {
            use_type_invariant(self);
        }
        match self.definition.probe(index) {
            Some(definition) => Some(ProviderProbe::new(definition, &self.tokens[index])),
            None => None,
        }
    }

    /// The handle of the probe called `name`.  It is absent only where the
    /// declaration has no probe of that name.
    pub fn probe_named(&self, name: &str) -> (probe: Option<ProviderProbe<'_, B::Token>>)
        ensures
            probe is Some <==> has_name(self.signature().probes, name@),
            probe matches Some(handle) ==> handle.signature().name == name@ && exists|i: int|
                0 <= i < self.signature().probes.len() && handle.signature()
                    == #[trigger] self.signature().probes[i] && handle.token() == self.tokens()[i],
    {
        match self.definition.position(name) {
            Some(index) => self.probe(index),
            None => None,
        }
    }
}

/// Whether `begun` is what the backend gave when it was asked to begin a
/// provider called `name`.
pub open spec fn begins<T: Tracer>(
    tracer: &T,
    name: Seq<char>,
    begun: Result<T::Builder, <T::Builder as ProviderBuilder>::Error>,
) -> bool {
    exists|text: &str| text@ == name && #[trigger] call_ensures(T::define_provider, (tracer, text), begun)
}

/// Whether `step` is what the backend gave when `builder` was asked to
/// register `probe`: its name and the representations of its arguments were
/// handed over as declared.
pub open spec fn adds_probe<B: ProviderBuilder>(
    builder: B,
    probe: ProbeSignature,
    step: Result<(B, B::Token), B::Error>,
) -> bool {
    exists|name: &str, arg_types: &Vec<WireType>|
        name@ == probe.name && arg_types@ == probe.arg_types && #[trigger] call_ensures(
            B::add_probe,
            (builder, name, arg_types),
            step,
        )
}

/// Whether `done` is what the backend gave when `builder` was asked to
/// finish its provider.
pub open spec fn finishes<B: ProviderBuilder>(
    builder: B,
    done: Result<B::Provider, B::Error>,
) -> bool {
    call_ensures(B::build, (builder,), done)
}

/// What the backend gives for one registration: the builder to go on with
/// and the token of the probe, or an error.
pub type Step<B> = Result<(B, <B as ProviderBuilder>::Token), <B as ProviderBuilder>::Error>;

/// A registration that goes on: the builder to go on with and the tokens
/// collected so far.
pub struct Registered<B: ProviderBuilder> {
    pub builder: B,
    pub tokens: Seq<B::Token>,
}

/// Where a registration stands: going on, or ended by an error.
pub type Registration<B> = Result<Registered<B>, <B as ProviderBuilder>::Error>;

/// The builder that is asked at step `at`: the one the registration started
/// with, or the one that the step before gave back.
pub open spec fn builder_at<B: ProviderBuilder>(builder: B, steps: Seq<Step<B>>, at: int) -> B {
    if at <= 0 {
        builder
    } else {
        steps[at - 1]->Ok_0.0
    }
}

/// The tokens that a run of steps gave, in order.
pub open spec fn tokens_of<B: ProviderBuilder>(steps: Seq<Step<B>>) -> Seq<B::Token> {
    steps.map_values(|step: Step<B>| step->Ok_0.1)
}

/// Whether `steps` is what the backend gave as the probes were registered in
/// order, starting with `builder`: each probe was registered with the
/// builder that the step before gave back, no step followed a refusal, and
/// only a refusal ended the run before the last probe.
pub open spec fn answered<B: ProviderBuilder>(
    builder: B,
    probes: Seq<ProbeSignature>,
    steps: Seq<Step<B>>,
) -> bool {
    &&& steps.len() <= probes.len()
    &&& forall|i: int|
        0 <= i < steps.len() ==> adds_probe(builder_at(builder, steps, i), probes[i], #[trigger] steps[i])
    &&& forall|i: int| 0 <= i < steps.len() - 1 ==> (#[trigger] steps[i]) is Ok
    &&& steps.len() < probes.len() ==> steps.len() > 0 && steps.last() is Err
}

/// Where a registration stands after a run of steps: ended by the error of
/// the last step if that step was refused, and else going on with the
/// builder that the last step gave back and the tokens of all steps.
pub open spec fn registration_after<B: ProviderBuilder>(
    builder: B,
    steps: Seq<Step<B>>,
) -> Registration<B> {
    if steps.len() > 0 && steps.last() is Err {
        Err(steps.last()->Err_0)
    } else {
        Ok(Registered { builder: builder_at(builder, steps, steps.len() as int), tokens: tokens_of(steps) })
    }
}

/// Whether registering `probes` in order, starting with `builder`, leads to
/// `outcome`: the tokens of all probes in order, with the builder to go on
/// with, or the error of the first probe that the backend refused.
pub open spec fn registers<B: ProviderBuilder>(
    builder: B,
    probes: Seq<ProbeSignature>,
    outcome: Registration<B>,
) -> bool {
    exists|steps: Seq<Step<B>>| #[trigger]
        answered(builder, probes, steps) && outcome == registration_after(builder, steps)
}

/// What a registration gave, with the tokens as a sequence.
pub open spec fn registration_of<B: ProviderBuilder>(
    outcome: Result<(B, Vec<B::Token>), B::Error>,
) -> Registration<B> {
    match outcome {
        Ok(given) => Ok(Registered { builder: given.0, tokens: given.1@ }),
        Err(error) => Err(error),
    }
}

/// Adds the token of a registration step that succeeded to those collected
/// and gives the builder to go on with, or hands on the error of a step that
/// failed.
pub fn keep_token<B, K, E>(tokens: &mut Vec<K>, step: Result<(B, K), E>) -> (kept: Result<B, E>)
    ensures
        match step {
            Ok(given) => kept == Ok::<B, E>(given.0) && final(tokens)@ == old(tokens)@.push(
                given.1,
            ),
            Err(error) => kept == Err::<B, E>(error) && final(tokens)@ == old(tokens)@,
        },
{
    match step {
        Ok((builder, token)) => {
            tokens.push(token);
            Ok(builder)
        },
        Err(error) => Err(error),
    }
}

/// Registers every declared probe with the backend, in the order of the
/// declaration, and stops at the first that the backend refuses.  Gives the
/// builder to go on with and the token of each probe, in the order of the
/// declaration, or the error of the backend.
pub fn register_probes<B: ProviderBuilder>(builder: B, definition: &ProviderDefinition) -> (tokens:
    Result<(B, Vec<B::Token>), B::Error>)
    ensures
        registers(builder, definition@.probes, registration_of(tokens)),
        tokens matches Ok(all) ==> all.1@.len() == definition@.probes.len(),
        definition@.probes.len() == 0 ==> tokens is Ok,
{
    let ghost probes = definition@.probes;
    let ghost mut steps: Seq<Step<B>> = Seq::empty();
    let mut current = builder;
    let mut tokens: Vec<B::Token> = Vec::new();
    let count = definition.probe_count();
    let mut i: usize = 0;
    assert(tokens@ =~= tokens_of(steps));
    while i < count
        invariant
            i <= count,
            count == probes.len(),
            probes == definition@.probes,
            steps.len() == i,
            forall|j: int| 0 <= j < i ==> (#[trigger] steps[j]) is Ok,
            forall|j: int|
                0 <= j < i ==> adds_probe(builder_at(builder, steps, j), probes[j], #[trigger] steps[j]),
            current == builder_at(builder, steps, i as int),
            tokens@ == tokens_of(steps),
        decreases count - i,
    {
        let ghost before = steps;
        match definition.probe(i) {
            Some(probe) => {
                let step = current.add_probe(probe.name.as_str(), &probe.arg_types);
                proof {
                    steps = before.push(step);
                    assert forall|j: int| 0 <= j < steps.len() implies adds_probe(
                        builder_at(builder, steps, j),
                        probes[j],
                        #[trigger] steps[j],
                    ) by {
                        if j < i {
                            assert(steps[j] == before[j]);
                            assert(builder_at(builder, steps, j) == builder_at(builder, before, j));
                        }
                    }
                    assert forall|j: int| 0 <= j < steps.len() - 1 implies (#[trigger] steps[j]) is Ok by {
                        assert(steps[j] == before[j]);
                    }
                }
                match keep_token(&mut tokens, step) {
                    Ok(next) => {
                        current = next;
                        assert(tokens@ =~= tokens_of(steps));
                    },
                    Err(error) => {
                        assert(answered(builder, probes, steps));
                        assert(registration_after(builder, steps) == Err::<Registered<B>, B::Error>(
                            error,
                        ));
                        let failed = Err(error);
                        assert(registration_of(failed) == registration_after(builder, steps));
                        return failed;
                    },
                }
            },
            None => {
                return Ok((current, tokens));
            },
        }
        i += 1;
    }
    assert(answered(builder, probes, steps));
    assert(registration_after(builder, steps) == Ok::<Registered<B>, B::Error>(
        Registered { builder: current, tokens: tokens@ },
    ));
    Ok((current, tokens))
}

/// Joins a declaration and the tokens of its probes with the outcome of
/// finishing the backend's provider.
pub fn assemble<B: ProviderBuilder>(
    definition: ProviderDefinition,
    tokens: Vec<B::Token>,
    outcome: Result<B::Provider, B::Error>,
) -> (provider: Result<Provider<B>, B::Error>)
    requires
        tokens@.len() == definition@.probes.len(),
    ensures
        assembles(definition@, tokens@, outcome, provider),
{
    match outcome {
        Ok(backend) => Ok(Provider { definition, tokens, backend }),
        Err(error) => Err(error),
    }
}

/// Whether `provider` joins a declaration and the tokens of its probes with
/// the outcome of finishing the backend's provider: a provider of exactly
/// these parts if the backend finished, the backend's error if it refused.
pub open spec fn assembles<B: ProviderBuilder>(
    declared: ProviderSignature,
    tokens: Seq<B::Token>,
    done: Result<B::Provider, B::Error>,
    provider: Result<Provider<B>, B::Error>,
) -> bool {
    match done {
        Ok(backend) => provider is Ok && provider->Ok_0.signature() == declared
            && provider->Ok_0.tokens() == tokens && provider->Ok_0.backend() == backend,
        Err(error) => provider is Err && provider->Err_0 == error,
    }
}

/// Whether what the registration gave leads to `provider`: the error of a
/// registration that failed, or what finishing the builder and joining the
/// parts gives.
pub open spec fn completes<B: ProviderBuilder>(
    declared: ProviderSignature,
    registered: Registration<B>,
    provider: Result<Provider<B>, B::Error>,
) -> bool {
    match registered {
        Ok(reached) => exists|done: Result<B::Provider, B::Error>| #[trigger]
            finishes(reached.builder, done) && assembles(declared, reached.tokens, done, provider),
        Err(error) => provider is Err && provider->Err_0 == error,
    }
}

/// Whether what beginning the provider gave leads to `provider`: the error
/// of a beginning that failed, or what registering the declared probes and
/// completing gives.
pub open spec fn constructs<B: ProviderBuilder>(
    declared: ProviderSignature,
    begun: Result<B, B::Error>,
    provider: Result<Provider<B>, B::Error>,
) -> bool {
    match begun {
        Ok(builder) => exists|registered: Registration<B>| #[trigger]
            registers(builder, declared.probes, registered) && completes(
                declared,
                registered,
                provider,
            ),
        Err(error) => provider is Err && provider->Err_0 == error,
    }
}

/// Whether building the declared provider through `tracer` leads to
/// `provider`: the backend is asked to begin a provider under the declared
/// name, to register the declared probes in order, and to finish; the first
/// refusal is the result, and otherwise the provider joins the declaration
/// with the tokens and the provider that the backend gave.
pub open spec fn builds<T: Tracer>(
    tracer: &T,
    declared: ProviderSignature,
    provider: Result<Provider<T::Builder>, <T::Builder as ProviderBuilder>::Error>,
) -> bool {
    exists|begun: Result<T::Builder, <T::Builder as ProviderBuilder>::Error>| #[trigger]
        begins(tracer, declared.name, begun) && constructs(declared, begun, provider)
}

/// Builds a provider through the backend: begins it under the declared name,
/// registers the declared probes in order, finishes it, and joins the
/// declaration with what the backend gave.  The first step that the backend
/// refuses ends the construction with the backend's error.
pub fn build_provider<T: Tracer>(tracer: &T, definition: ProviderDefinition) -> (provider: Result<
    Provider<T::Builder>,
    <T::Builder as ProviderBuilder>::Error,
>)
    ensures
        builds(tracer, definition@, provider),
        provider matches Ok(built) ==> built.signature() == definition@,
{
    let begun = tracer.define_provider(definition.name());
    assert(begins(tracer, definition@.name, begun));
    match begun {
        Ok(builder) => {
            let registered = register_probes(builder, &definition);
            match registered {
                Ok((last, tokens)) => {
                    let done = last.build();
                    let provider = assemble(definition, tokens, done);
                    let ghost reached = registration_of(registered);
                    assert(reached->Ok_0.builder == last);
                    assert(reached->Ok_0.tokens == tokens@);
                    assert(finishes(reached->Ok_0.builder, done));
                    assert(completes(definition@, reached, provider));
                    assert(constructs(definition@, begun, provider));
                    provider
                },
                Err(error) => {
                    let provider = Err(error);
                    assert(completes(definition@, registration_of(registered), provider));
                    assert(constructs(definition@, begun, provider));
                    provider
                },
            }
        },
        Err(error) => {
            let provider = Err(error);
            assert(constructs(definition@, begun, provider));
            provider
        },
    }
}

/// A declared provider together with its initialization: the accessors that
/// call sites use.  The provider is built through the backend on the first
/// access and never again.
pub struct LazyProvider<B: ProviderBuilder> {
    pending: Option<ProviderDefinition>,
    init: ProviderInitializer<Provider<B>, B::Error>,
}

impl<B: ProviderBuilder> View for LazyProvider<B> {
    type V = InitState<Provider<B>, B::Error>;

    closed spec fn view(&self) -> InitState<Provider<B>, B::Error> {
        self.init@
    }
}

impl<B: ProviderBuilder> LazyProvider<B> {
    /// The declaration that waits to be built, while there is one.
    pub closed spec fn declared(&self) -> Option<ProviderSignature> {
        match self.pending {
            Some(definition) => Some(definition@),
            None => None,
        }
    }

    #[verifier::type_invariant]
    spec fn declaration_waits_for_the_first_access(self) -> bool {
        self.init@ is Uninitialized ==> self.pending is Some
    }

    /// A provider that no access has reached yet.
    pub fn new(definition: ProviderDefinition) -> (lazy: Self)
        ensures
            lazy@ == InitState::<Provider<B>, B::Error>::Uninitialized,
            lazy.declared() == Some(definition@),
    {
        LazyProvider { pending: Some(definition), init: ProviderInitializer::new() }
    }

    /// The accessor.  The first call of all builds the provider through
    /// `tracer` and keeps the outcome, a failure as well as a success; every
    /// other call changes nothing and asks nothing of the backend.  The
    /// result is the provider if the state is then `Ready`.
    pub fn get<T: Tracer<Builder = B>>(&mut self, tracer: &T) -> (provider: Option<&Provider<B>>)
        ensures
            old(self)@ is Uninitialized ==> final(self)@.is_terminal(),
            old(self)@ is Uninitialized ==> (final(self)@ matches InitState::Ready(built) ==> Some(
                built.signature(),
            ) == old(self).declared()),
            !(old(self)@ is Uninitialized) ==> final(self)@ == old(self)@,
            provider == (match final(self)@ {
                InitState::Ready(p) => Some(&p),
                _ => None,
            }),
    {
        proof {
            use_type_invariant(&*self);
        }
        match self.init.begin() {
            Directive::Build => {
                let mut pending: Option<ProviderDefinition> = None;
                core::mem::swap(&mut self.pending, &mut pending);
                match pending {
                    Some(definition) => {
                        let outcome = build_provider(tracer, definition);
                        self.init.resolve(outcome);
                    },
                    None => {},
                }
            },
            _ => {},
        }
        self.init.peek()
    }

    /// The cause of the failure if the provider was accessed before and the
    /// construction failed.  Never starts initialization.
    pub fn get_init_error(&self) -> (error: Option<&B::Error>)
        ensures
            error == (match self@ {
                InitState::Failed(e) => Some(&e),
                _ => None,
            }),
    {
        self.init.get_init_error()
    }

    /// Initializes the provider if no access has done so yet, and gives the
    /// cause if the initialization, now or earlier, failed.
    pub fn try_init<T: Tracer<Builder = B>>(&mut self, tracer: &T) -> (error: Option<&B::Error>)
        ensures
            old(self)@ is Uninitialized ==> final(self)@.is_terminal(),
            old(self)@ is Uninitialized ==> (final(self)@ matches InitState::Ready(built) ==> Some(
                built.signature(),
            ) == old(self).declared()),
            !(old(self)@ is Uninitialized) ==> final(self)@ == old(self)@,
            error == (match final(self)@ {
                InitState::Failed(e) => Some(&e),
                _ => None,
            }),
    {
        let _ = self.get(tracer);
        self.get_init_error()
    }

    /// The handle of the probe at `index` of the initialized provider,
    /// initializing it first if no access has done so yet.  Where `index` is
    /// that of a declared probe, the handle is absent only if the provider
    /// is not `Ready`.
    pub fn get_probe<T: Tracer<Builder = B>>(&mut self, tracer: &T, index: usize) -> (probe: Option<
        ProviderProbe<'_, B::Token>,
    >)
        ensures
            old(self)@ is Uninitialized ==> final(self)@.is_terminal(),
            old(self)@ is Uninitialized ==> (final(self)@ matches InitState::Ready(built) ==> Some(
                built.signature(),
            ) == old(self).declared()),
            !(old(self)@ is Uninitialized) ==> final(self)@ == old(self)@,
            match final(self)@ {
                InitState::Ready(built) => {
                    &&& index < built.signature().probes.len() ==> probe is Some
                        && probe->Some_0.signature() == built.signature().probes[index as int]
                        && probe->Some_0.token() == built.tokens()[index as int]
                    &&& index >= built.signature().probes.len() ==> probe is None
                },
                _ => probe is None,
            },
    {
        match self.get(tracer) {
            Some(provider) => provider.probe(index),
            None => None,
        }
    }
}

} // verus!
