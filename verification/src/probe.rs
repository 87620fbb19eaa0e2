//! Probes: what is declared of them, and the handle through which one fires.
use crate::marshal::{spec_wire_type_of, wire_type_of, ProbeArgType};
use crate::wire::{check_signature, matches_signature, WireType, WireValue};
use vstd::prelude::*;

verus! {

/// The two operations that the backend offers on a registered probe.
///
/// Whether a probe is enabled is decided outside the process and may change
/// at any moment, so nothing is promised of either operation.
pub trait ProbeToken {
    /// Whether a tracing tool is listening to the probe right now.
    fn is_enabled(&self) -> bool;

    /// Hands one wire tuple to the tracing tool.
    fn fire<'a>(&self, args: &Vec<WireValue<'a>>);
}

/// What a probe declaration says, as plain values.
pub struct ProbeSignature {
    pub name: Seq<char>,
    pub arg_types: Seq<WireType>,
}

/// A declared probe: its name and the representations of its arguments, in
/// order.
#[derive(Debug)]
pub struct ProbeDefinition {
    pub name: String,
    pub arg_types: Vec<WireType>,
}

impl View for ProbeDefinition {
    type V = ProbeSignature;

    open spec fn view(&self) -> ProbeSignature {
        ProbeSignature { name: self.name@, arg_types: self.arg_types@ }
    }
}

impl ProbeDefinition {
    /// A probe without arguments.
    pub fn new(name: &str) -> (definition: Self)
        ensures
            definition@ == (ProbeSignature { name: name@, arg_types: Seq::empty() }),
    {
        ProbeDefinition { name: String::from_str(name), arg_types: Vec::new() }
    }

    /// Adds one argument of the given representation after those declared.
    pub fn with_arg(self, arg_type: WireType) -> (definition: Self)
        ensures
            definition@ == (ProbeSignature {
                name: self@.name,
                arg_types: self@.arg_types.push(arg_type),
            }),
    {
        let mut definition = self;
        definition.arg_types.push(arg_type);
        definition
    }

    /// Adds one argument of type `T` after those declared.
    pub fn with_arg_of<'a, T: ProbeArgType<'a, T>>(self) -> (definition: Self)
        ensures
            definition@ == (ProbeSignature {
                name: self@.name,
                arg_types: self@.arg_types.push(spec_wire_type_of::<T>()),
            }),
    {
        self.with_arg(wire_type_of::<T>())
    }

    /// The number of arguments.
    pub fn arity(&self) -> (n: usize)
        ensures
            n == self@.arg_types.len(),
    {
        self.arg_types.len()
    }
}

/// Evaluates the arguments of a probe if, and only if, the probe was found
/// enabled.  A disabled probe costs no evaluation: `args` is not run.
pub fn evaluate_when<'a, F: FnOnce() -> Vec<WireValue<'a>>>(enabled: bool, args: F) -> (wire: Option<
    Vec<WireValue<'a>>,
>)
    requires
        enabled ==> args.requires(()),
    ensures
        !enabled ==> wire is None,
        enabled ==> wire is Some && args.ensures((), wire->Some_0),
{
    if enabled {
        Some(args())
    } else {
        None
    }
}

/// Whether `answer` is what the backend said when `token` was asked whether
/// its probe is enabled.
pub open spec fn answers_enabled<K: ProbeToken>(token: K, answer: bool) -> bool {
    call_ensures(K::is_enabled, (&token,), answer)
}

/// Whether the wire tuple `args` was handed to the backend through `token`.
pub open spec fn handed_over<'a, K: ProbeToken>(token: K, args: Vec<WireValue<'a>>) -> bool {
    call_ensures(K::fire, (&token, &args), ())
}

/// What one firing attempt does, given what the enablement check said.  For
/// a probe found disabled nothing is fired.  For a probe found enabled,
/// `args` gave a wire tuple; it was fired exactly if it has the declared
/// arity and representations, and then it was handed to the backend through
/// `token`.
pub open spec fn attempts<'a, K: ProbeToken, F: FnOnce() -> Vec<WireValue<'a>>>(
    token: K,
    declared: Seq<WireType>,
    enabled: bool,
    args: F,
    fired: bool,
) -> bool {
    if enabled {
        exists|wire: Vec<WireValue<'a>>|
            #![trigger args.ensures((), wire)]
            args.ensures((), wire) && fired == matches_signature(wire@, declared) && (fired
                ==> handed_over(token, wire))
    } else {
        !fired
    }
}

/// What one firing attempt does from the enablement check on: the backend
/// gave an answer, and the attempt went on as that answer says.
pub open spec fn checks_and_attempts<'a, K: ProbeToken, F: FnOnce() -> Vec<WireValue<'a>>>(
    token: K,
    declared: Seq<WireType>,
    args: F,
    fired: bool,
) -> bool {
    exists|enabled: bool| #[trigger]
        answers_enabled(token, enabled) && attempts(token, declared, enabled, args, fired)
}

/// The handle through which one probe of a ready provider is fired.
pub struct ProviderProbe<'p, K> {
    definition: &'p ProbeDefinition,
    token: &'p K,
}

impl<'p, K: ProbeToken> ProviderProbe<'p, K> {
    /// The declaration of the probe.
    pub closed spec fn signature(&self) -> ProbeSignature {
        self.definition@
    }

    /// The backend's token of the probe.
    pub closed spec fn token(&self) -> K {
        *self.token
    }

    /// Joins a declaration with the token that the backend gave for it.
    pub fn new(definition: &'p ProbeDefinition, token: &'p K) -> (probe: Self)
        ensures
            probe.signature() == definition@,
            probe.token() == *token,
    {
        ProviderProbe { definition, token }
    }

    /// The declaration of the probe.
    pub fn definition(&self) -> (definition: &'p ProbeDefinition)
        ensures
            definition@ == self.signature(),
    {
        self.definition
    }

    /// Asks the backend whether the probe is enabled right now.  The answer
    /// is the backend's, and it is never cached.
    pub fn is_enabled(&self) -> (enabled: bool)
        ensures
            answers_enabled(self.token(), enabled),
    {
        self.token.is_enabled()
    }

    /// Hands a wire tuple of the declared arity and representations to the
    /// backend.
    pub fn fire<'a>(&self, args: &Vec<WireValue<'a>>)
        requires
            matches_signature(args@, self.signature().arg_types),
        ensures
            handed_over(self.token(), *args),
    {
        self.token.fire(args)
    }

    /// Hands a wire tuple to the backend if it has the declared arity and
    /// representations, and says whether it did.
    pub fn try_fire<'a>(&self, args: &Vec<WireValue<'a>>) -> (fired: bool)
        ensures
            fired == matches_signature(args@, self.signature().arg_types),
            fired ==> handed_over(self.token(), *args),
    {
        if check_signature(args, &self.definition.arg_types) {
            self.fire(args);
            true
        } else {
            false
        }
    }

    /// One firing attempt, given what the enablement check said.  When the
    /// probe was found disabled, `args` is not run.  When it was found
    /// enabled, `args` is run once and what it returns is fired if it fits
    /// the declaration.
    pub fn fire_when<'a, F: FnOnce() -> Vec<WireValue<'a>>>(&self, enabled: bool, args: F) -> (fired:
        bool)
        requires
            enabled ==> args.requires(()),
        ensures
            attempts(self.token(), self.signature().arg_types, enabled, args, fired),
    {
        match evaluate_when(enabled, args) {
            Some(wire) => self.try_fire(&wire),
            None => false,
        }
    }

    /// One firing attempt: asks the backend whether the probe is enabled
    /// and, only if it is, evaluates the arguments and fires what they gave
    /// if it fits the declaration.
    pub fn fire_with<'a, F: FnOnce() -> Vec<WireValue<'a>>>(&self, args: F) -> (fired: bool)
        requires
            args.requires(()),
        ensures
            checks_and_attempts(self.token(), self.signature().arg_types, args, fired),
    {
        let enabled = self.is_enabled();
        self.fire_when(enabled, args)
    }
}

/// What a call site does to fire a probe: nothing if the provider is absent,
/// one firing attempt otherwise.  The arguments are evaluated only if the
/// provider is there and the probe is enabled.
pub fn fire_probe<'p, 'a, K: ProbeToken, F: FnOnce() -> Vec<WireValue<'a>>>(
    probe: Option<ProviderProbe<'p, K>>,
    args: F,
) -> (fired: bool)
    requires
        probe is Some ==> args.requires(()),
    ensures
        match probe {
            Some(handle) => checks_and_attempts(
                handle.token(),
                handle.signature().arg_types,
                args,
                fired,
            ),
            None => !fired,
        },
{
    match probe {
        Some(handle) => handle.fire_with(args),
        None => false,
    }
}

} // verus!
