use probers::init::InitState;
use probers::probe::{evaluate_when, fire_probe, ProbeDefinition, ProbeToken, ProviderProbe};
use probers::provider::{
    assemble, build_provider, keep_token, register_probes, LazyProvider, Provider,
    ProviderBuilder, ProviderDefinition, Tracer,
};
use probers::marshal::marshal;
use probers::text::{bytes_eq, str_eq};
use probers::wire::{WireType, WireValue};
use std::cell::{Cell, RefCell};
use std::rc::Rc;

#[derive(Debug)]
struct Token {
    name: String,
    enabled: Rc<Cell<bool>>,
    fired: Rc<RefCell<Vec<String>>>,
}

impl ProbeToken for Token {
    fn is_enabled(&self) -> bool {
        self.enabled.get()
    }

    fn fire<'a>(&self, args: &Vec<WireValue<'a>>) {
        self.fired.borrow_mut().push(format!("{}{:?}", self.name, args));
    }
}

struct Builder {
    enabled: Rc<Cell<bool>>,
    fired: Rc<RefCell<Vec<String>>>,
    registered: Rc<RefCell<Vec<(String, Vec<WireType>)>>>,
    refuse_probe: Option<String>,
    refuse_build: bool,
}

impl ProviderBuilder for Builder {
    type Token = Token;
    type Provider = String;
    type Error = String;

    fn add_probe(self, name: &str, arg_types: &Vec<WireType>) -> Result<(Builder, Token), String> {
        if self.refuse_probe.as_deref() == Some(name) {
            return Err(format!("probe {} refused", name));
        }
        self.registered.borrow_mut().push((name.to_string(), arg_types.clone()));
        let token = Token {
            name: name.to_string(),
            enabled: self.enabled.clone(),
            fired: self.fired.clone(),
        };
        Ok((self, token))
    }

    fn build(self) -> Result<String, String> {
        if self.refuse_build {
            Err(String::from("build refused"))
        } else {
            Ok(String::from("backend"))
        }
    }
}

struct Backend {
    constructions: Cell<u32>,
    enabled: Rc<Cell<bool>>,
    fired: Rc<RefCell<Vec<String>>>,
    registered: Rc<RefCell<Vec<(String, Vec<WireType>)>>>,
    refuse_provider: bool,
    refuse_probe: Option<String>,
    refuse_build: bool,
}

impl Backend {
    fn working() -> Backend {
        Backend {
            constructions: Cell::new(0),
            enabled: Rc::new(Cell::new(false)),
            fired: Rc::new(RefCell::new(Vec::new())),
            registered: Rc::new(RefCell::new(Vec::new())),
            refuse_provider: false,
            refuse_probe: None,
            refuse_build: false,
        }
    }
}

impl Tracer for Backend {
    type Builder = Builder;

    fn define_provider(&self, name: &str) -> Result<Builder, String> {
        self.constructions.set(self.constructions.get() + 1);
        if self.refuse_provider {
            return Err(format!("provider {} refused", name));
        }
        Ok(Builder {
            enabled: self.enabled.clone(),
            fired: self.fired.clone(),
            registered: self.registered.clone(),
            refuse_probe: self.refuse_probe.clone(),
            refuse_build: self.refuse_build,
        })
    }
}

fn declared() -> ProviderDefinition {
    let mut definition = ProviderDefinition::new("my_probes");
    assert!(definition.add_probe(ProbeDefinition::new("probe0").with_arg_of::<i32>()));
    assert!(definition.add_probe(ProbeDefinition::new("probe1").with_arg_of::<&str>()));
    assert!(definition.add_probe(
        ProbeDefinition::new("probe2").with_arg_of::<&str>().with_arg(WireType::USize)
    ));
    definition
}

#[test]
fn definition_keeps_names_apart() {
    let mut definition = declared();
    assert_eq!(definition.name(), "my_probes");
    assert_eq!(definition.probe_count(), 3);
    assert!(!definition.add_probe(ProbeDefinition::new("probe1")));
    assert_eq!(definition.probe_count(), 3);
    assert_eq!(definition.position("probe0"), Some(0));
    assert_eq!(definition.position("probe2"), Some(2));
    assert_eq!(definition.position("probe3"), None);
    assert_eq!(definition.position("probe"), None);
    let second = definition.probe(2).unwrap();
    assert_eq!(second.name, "probe2");
    assert_eq!(second.arg_types, vec![WireType::Bytes, WireType::USize]);
    assert_eq!(second.arity(), 2);
    assert!(definition.probe(3).is_none());
    assert_eq!(ProbeDefinition::new("p").arity(), 0);
}

#[test]
fn text_comparison_is_exact() {
    assert!(str_eq("probe0", "probe0"));
    assert!(!str_eq("probe0", "probe1"));
    assert!(!str_eq("probe", "probe0"));
    assert!(str_eq("", ""));
    assert!(bytes_eq(b"ab", b"ab"));
    assert!(!bytes_eq(b"ab", b"ba"));
    assert!(!bytes_eq(b"ab", b"abc"));
}

#[test]
fn construction_registers_each_probe_in_order() {
    let backend = Backend::working();
    let provider = build_provider(&backend, declared()).unwrap();
    assert_eq!(backend.constructions.get(), 1);
    assert_eq!(provider.name(), "my_probes");
    assert_eq!(provider.probe_count(), 3);
    assert_eq!(
        *backend.registered.borrow(),
        vec![
            (String::from("probe0"), vec![WireType::I32]),
            (String::from("probe1"), vec![WireType::Bytes]),
            (String::from("probe2"), vec![WireType::Bytes, WireType::USize]),
        ]
    );
    let handle = provider.probe(1).unwrap();
    assert_eq!(handle.definition().name, "probe1");
    assert!(provider.probe(3).is_none());
    assert_eq!(provider.probe_named("probe2").unwrap().definition().arity(), 2);
    assert!(provider.probe_named("nope").is_none());
}

#[test]
fn construction_fails_with_the_error_of_the_backend() {
    let mut backend = Backend::working();
    backend.refuse_provider = true;
    assert_eq!(build_provider(&backend, declared()).err(), Some(String::from("provider my_probes refused")));

    let mut backend = Backend::working();
    backend.refuse_probe = Some(String::from("probe1"));
    assert_eq!(build_provider(&backend, declared()).err(), Some(String::from("probe probe1 refused")));
    assert_eq!(backend.registered.borrow().len(), 1);

    let mut backend = Backend::working();
    backend.refuse_build = true;
    assert_eq!(build_provider(&backend, declared()).err(), Some(String::from("build refused")));
}

#[test]
fn construction_steps_hand_on_what_the_backend_said() {
    let mut tokens: Vec<u8> = vec![1];
    assert_eq!(keep_token::<char, u8, String>(&mut tokens, Ok(('b', 2))), Ok('b'));
    assert_eq!(tokens, vec![1, 2]);
    assert_eq!(
        keep_token::<char, u8, String>(&mut tokens, Err(String::from("full"))),
        Err(String::from("full"))
    );
    assert_eq!(tokens, vec![1, 2]);

    let backend = Backend::working();
    let definition = declared();
    let builder = backend.define_provider("my_probes").unwrap();
    let (builder, tokens) = register_probes(builder, &definition).ok().unwrap();
    assert_eq!(tokens.len(), 3);
    assert_eq!(tokens[0].name, "probe0");
    assert_eq!(tokens[2].name, "probe2");
    let (_, again) = register_probes(builder, &definition).ok().unwrap();
    let failed: Result<Provider<Builder>, String> =
        assemble(declared(), again, Err(String::from("late")));
    assert_eq!(failed.err(), Some(String::from("late")));
    let built: Provider<Builder> = assemble(definition, tokens, Ok(String::from("b"))).unwrap();
    assert_eq!(built.probe_count(), 3);

    let builder = backend.define_provider("empty").unwrap();
    let (_, none) = register_probes(builder, &ProviderDefinition::new("empty")).ok().unwrap();
    assert!(none.is_empty());
    let mut refusing = Backend::working();
    refusing.refuse_probe = Some(String::from("probe1"));
    let builder = refusing.define_provider("my_probes").unwrap();
    assert_eq!(
        register_probes(builder, &declared()).err(),
        Some(String::from("probe probe1 refused"))
    );
    assert_eq!(refusing.registered.borrow().len(), 1);
}

#[test]
fn lazy_provider_asks_the_backend_once() {
    let backend = Backend::working();
    let mut lazy: LazyProvider<Builder> = LazyProvider::new(declared());
    assert!(lazy.get_init_error().is_none());
    assert_eq!(backend.constructions.get(), 0);
    for _ in 0..4 {
        let provider = lazy.get(&backend).unwrap();
        assert_eq!(provider.name(), "my_probes");
    }
    assert_eq!(backend.constructions.get(), 1);
    assert!(lazy.try_init(&backend).is_none());
    assert!(lazy.get_probe(&backend, 0).is_some());
    assert!(lazy.get_probe(&backend, 2).is_some());
    assert!(lazy.get_probe(&backend, 3).is_none());
    assert_eq!(backend.constructions.get(), 1);
}

#[test]
fn lazy_provider_keeps_a_failure() {
    let mut backend = Backend::working();
    backend.refuse_probe = Some(String::from("probe2"));
    let mut lazy: LazyProvider<Builder> = LazyProvider::new(declared());
    assert!(lazy.get_init_error().is_none());
    assert_eq!(lazy.try_init(&backend), Some(&String::from("probe probe2 refused")));
    backend.refuse_probe = None;
    for _ in 0..3 {
        assert!(lazy.get(&backend).is_none());
        assert!(lazy.get_probe(&backend, 0).is_none());
        assert_eq!(lazy.get_init_error(), Some(&String::from("probe probe2 refused")));
    }
    assert_eq!(backend.constructions.get(), 1);
}

#[test]
fn failing_provider_leaves_another_ready() {
    let mut broken = Backend::working();
    broken.refuse_provider = true;
    let working = Backend::working();
    let mut first: LazyProvider<Builder> = LazyProvider::new(ProviderDefinition::new("first"));
    let mut second: LazyProvider<Builder> = LazyProvider::new(ProviderDefinition::new("second"));
    assert!(first.get(&broken).is_none());
    assert!(second.get_init_error().is_none());
    assert_eq!(second.get(&working).unwrap().name(), "second");
    assert!(first.get(&working).is_none());
    assert_eq!(first.get_init_error(), Some(&String::from("provider first refused")));
    assert!(second.get_init_error().is_none());
    assert_eq!(working.constructions.get(), 1);
}

#[test]
fn disabled_probe_does_not_evaluate_its_arguments() {
    let backend = Backend::working();
    let mut lazy: LazyProvider<Builder> = LazyProvider::new(declared());
    let calls = Cell::new(0u32);
    let thunk = || {
        calls.set(calls.get() + 1);
        42i32
    };

    backend.enabled.set(false);
    let fired = fire_probe(lazy.get_probe(&backend, 0), || vec![marshal(&thunk)]);
    assert!(!fired);
    assert_eq!(calls.get(), 0);
    assert!(backend.fired.borrow().is_empty());

    backend.enabled.set(true);
    let fired = fire_probe(lazy.get_probe(&backend, 0), || vec![marshal(&thunk)]);
    assert!(fired);
    assert_eq!(calls.get(), 1);
    assert_eq!(*backend.fired.borrow(), vec![String::from("probe0[I32(42)]")]);
}

#[test]
fn absent_provider_fires_nothing() {
    let mut backend = Backend::working();
    backend.refuse_build = true;
    backend.enabled.set(true);
    let mut lazy: LazyProvider<Builder> = LazyProvider::new(declared());
    let calls = Cell::new(0u32);
    let fired = fire_probe(lazy.get_probe(&backend, 0), || {
        calls.set(calls.get() + 1);
        vec![WireValue::I32(1)]
    });
    assert!(!fired);
    assert_eq!(calls.get(), 0);
    let none: Option<ProviderProbe<Token>> = None;
    assert!(!fire_probe(none, || vec![WireValue::I32(1)]));
}

#[test]
fn firing_checks_the_declared_signature() {
    let backend = Backend::working();
    backend.enabled.set(true);
    let provider = build_provider(&backend, declared()).unwrap();
    let probe = provider.probe_named("probe2").unwrap();
    assert!(probe.is_enabled());
    assert!(!probe.try_fire(&vec![WireValue::Bytes(b"x")]));
    assert!(!probe.try_fire(&vec![WireValue::Bytes(b"x"), WireValue::U64(1)]));
    assert!(backend.fired.borrow().is_empty());
    assert!(probe.try_fire(&vec![marshal("x"), marshal(9usize)]));
    probe.fire(&vec![marshal("y"), marshal(1usize)]);
    assert!(probe.fire_with(|| vec![marshal("z"), marshal(2usize)]));
    assert!(!probe.fire_with(|| vec![marshal(2usize)]));
    assert!(probe.fire_when(true, || vec![marshal("w"), marshal(3usize)]));
    assert!(!probe.fire_when(false, || panic!("the arguments must not be evaluated")));
    assert_eq!(backend.fired.borrow().len(), 4);
    assert_eq!(backend.fired.borrow()[0], "probe2[Bytes([120]), USize(9)]");
    backend.enabled.set(false);
    assert!(!probe.is_enabled());
    assert!(!probe.fire_with(|| panic!("the arguments must not be evaluated")));
}

#[test]
fn arguments_are_evaluated_only_when_enabled() {
    let calls = Cell::new(0u32);
    let none = evaluate_when(false, || {
        calls.set(calls.get() + 1);
        vec![WireValue::U8(1)]
    });
    assert_eq!(none, None);
    assert_eq!(calls.get(), 0);
    let some = evaluate_when(true, || {
        calls.set(calls.get() + 1);
        vec![WireValue::U8(1)]
    });
    assert_eq!(some, Some(vec![WireValue::U8(1)]));
    assert_eq!(calls.get(), 1);
}

#[test]
fn state_is_plain_data() {
    let state: InitState<u8, u8> = InitState::Ready(1);
    assert!(matches!(state, InitState::Ready(1)));
}
