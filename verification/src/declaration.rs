//! Provider traits as plain values, and the rules that turn one into the
//! description of a provider and its probes.
//!
//! A provider is declared as a trait whose methods are its probes.  What the
//! rules read of such a trait is held here in types of plain values, so that
//! the rules themselves are independent of any parser.
use crate::error::{violation_error, ErrorSite, ErrorView, ProberError, Violation};
use crate::naming::{
    get_probe_accessor_name, get_provider_impl_mod_name, get_provider_impl_struct_type_name,
    get_provider_impl_struct_var_name, get_provider_instance_var_name, get_provider_name,
    probe_accessor_name, provider_impl_mod_name, provider_impl_struct_type_name,
    provider_impl_struct_var_name, provider_instance_var_name, provider_name,
};
use crate::text::str_eq;
use vstd::prelude::*;

verus! {

/// What the description of a probe argument says, as plain values.
pub struct ProbeArgView {
    pub name: Seq<char>,
    pub type_text: Seq<char>,
    pub lifetimes: Seq<Seq<char>>,
}

/// One argument of a probe: its name, its type as written, and the lifetime
/// parameters that the references in its type need.
#[derive(Debug, PartialEq, Eq)]
pub struct ProbeArgSpecification {
    pub name: String,
    pub type_text: String,
    pub lifetimes: Vec<String>,
}

impl DeepView for ProbeArgSpecification {
    type V = ProbeArgView;

    open spec fn deep_view(&self) -> ProbeArgView {
        ProbeArgView {
            name: self.name@,
            type_text: self.type_text@,
            lifetimes: self.lifetimes.deep_view(),
        }
    }
}

/// A copy of a list of texts.
pub fn duplicate_texts(texts: &Vec<String>) -> (copy: Vec<String>)
    ensures
        copy.deep_view() == texts.deep_view(),
{
    let mut copy: Vec<String> = Vec::new();
    let mut i: usize = 0;
    while i < texts.len()
        invariant
            i <= texts.len(),
            copy@.len() == i,
            forall|j: int| 0 <= j < i ==> (#[trigger] copy@[j])@ == texts@[j]@,
        decreases texts.len() - i,
    {
        copy.push(texts[i].clone());
        i += 1;
    }
    assert(copy.deep_view() =~= texts.deep_view());
    copy
}

impl ProbeArgSpecification {
    /// An argument with the given name and type that needs no lifetime
    /// parameter.
    pub fn new(name: &str, type_text: &str) -> (arg: Self)
        ensures
            arg.deep_view() == (ProbeArgView {
                name: name@,
                type_text: type_text@,
                lifetimes: Seq::empty(),
            }),
    {
        let arg = ProbeArgSpecification {
            name: String::from_str(name),
            type_text: String::from_str(type_text),
            lifetimes: Vec::new(),
        };
        assert(arg.lifetimes.deep_view() =~= Seq::empty());
        arg
    }

    /// Adds a lifetime parameter after those the argument needs already.
    pub fn with_lifetime(self, lifetime: &str) -> (arg: Self)
        ensures
            arg.deep_view() == (ProbeArgView {
                name: self.deep_view().name,
                type_text: self.deep_view().type_text,
                lifetimes: self.deep_view().lifetimes.push(lifetime@),
            }),
    {
        let mut arg = self;
        arg.lifetimes.push(String::from_str(lifetime));
        assert(arg.lifetimes.deep_view() =~= self.lifetimes.deep_view().push(lifetime@));
        arg
    }

    /// A copy of the argument.
    pub fn duplicate(&self) -> (copy: Self)
        ensures
            copy.deep_view() == self.deep_view(),
    {
        ProbeArgSpecification {
            name: self.name.clone(),
            type_text: self.type_text.clone(),
            lifetimes: duplicate_texts(&self.lifetimes),
        }
    }
}

/// A copy of a list of arguments.
pub fn duplicate_args(args: &Vec<ProbeArgSpecification>) -> (copy: Vec<ProbeArgSpecification>)
    ensures
        copy.deep_view() == args.deep_view(),
{
    let mut copy: Vec<ProbeArgSpecification> = Vec::new();
    let mut i: usize = 0;
    while i < args.len()
        invariant
            i <= args.len(),
            copy@.len() == i,
            forall|j: int| 0 <= j < i ==> (#[trigger] copy@[j]).deep_view() == args@[j].deep_view(),
        decreases args.len() - i,
    {
        copy.push(args[i].duplicate());
        i += 1;
    }
    assert(copy.deep_view() =~= args.deep_view());
    copy
}

/// How a method takes `self`.
#[derive(Clone, Copy, Debug, PartialEq, Eq, Structural)]
pub enum Receiver {
    /// Not at all.
    Absent,
    /// By reference, shared or mutable.
    Reference,
    /// By value.
    Value,
}

/// What the rules read of a method's signature, names and arguments aside.
#[derive(Clone, Copy, Debug, PartialEq, Eq, Structural)]
pub struct MethodShape {
    pub has_default: bool,
    pub is_const: bool,
    pub is_unsafe: bool,
    pub is_async: bool,
    pub has_abi: bool,
    pub has_type_params: bool,
    pub has_return_type: bool,
    pub receiver: Receiver,
}

/// The first rule that a method of this shape breaks, if it breaks one.
pub open spec fn method_violation(shape: MethodShape) -> Option<Violation> {
    if shape.has_default {
        Some(Violation::DefaultImplementation)
    } else if shape.is_const || shape.is_unsafe || shape.is_async || shape.has_abi {
        Some(Violation::Modifier)
    } else if shape.has_type_params {
        Some(Violation::MethodParameters)
    } else if shape.has_return_type {
        Some(Violation::ReturnType)
    } else if shape.receiver != Receiver::Absent {
        Some(Violation::SelfArgument)
    } else {
        None
    }
}

/// The shape of a plain method declaration: no body, no modifier, no
/// parameters of its own, no return type, no `self`.
pub open spec fn plain_shape() -> MethodShape {
    MethodShape {
        has_default: false,
        is_const: false,
        is_unsafe: false,
        is_async: false,
        has_abi: false,
        has_type_params: false,
        has_return_type: false,
        receiver: Receiver::Absent,
    }
}

impl MethodShape {
    /// The shape of a plain method declaration.
    pub fn plain() -> (shape: Self)
        ensures
            shape == plain_shape(),
    {
        MethodShape {
            has_default: false,
            is_const: false,
            is_unsafe: false,
            is_async: false,
            has_abi: false,
            has_type_params: false,
            has_return_type: false,
            receiver: Receiver::Absent,
        }
    }

    /// The first rule that a method of this shape breaks, if it breaks one.
    pub fn check(&self) -> (violation: Option<Violation>)
        ensures
            violation == method_violation(*self),
    {
        if self.has_default {
            Some(Violation::DefaultImplementation)
        } else if self.is_const || self.is_unsafe || self.is_async || self.has_abi {
            Some(Violation::Modifier)
        } else if self.has_type_params {
            Some(Violation::MethodParameters)
        } else if self.has_return_type {
            Some(Violation::ReturnType)
        } else {
            match self.receiver {
                Receiver::Absent => None,
                _ => Some(Violation::SelfArgument),
            }
        }
    }
}

/// A method of a trait.
#[derive(Debug)]
pub struct MethodDecl {
    pub name: String,
    pub shape: MethodShape,
    pub args: Vec<ProbeArgSpecification>,
}

/// An item of a trait.
#[derive(Debug)]
pub enum TraitItemDecl {
    Method(MethodDecl),
    Const,
    Type,
    Macro,
    Verbatim,
}

/// A trait: its name, the paths of its attributes, whether it takes
/// parameters, a hash of its text, and its items in order.
#[derive(Debug)]
pub struct TraitDecl {
    pub name: String,
    pub attributes: Vec<Vec<String>>,
    pub has_type_params: bool,
    pub has_lifetimes: bool,
    pub hash: u64,
    pub items: Vec<TraitItemDecl>,
}

/// What the description of a probe says, as plain values.
pub struct ProbeSpecView {
    pub name: Seq<char>,
    pub args: Seq<ProbeArgView>,
}

/// The description of one probe: its name and its arguments in order.
#[derive(Debug, PartialEq, Eq)]
pub struct ProbeSpecification {
    pub name: String,
    pub args: Vec<ProbeArgSpecification>,
}

impl DeepView for ProbeSpecification {
    type V = ProbeSpecView;

    open spec fn deep_view(&self) -> ProbeSpecView {
        ProbeSpecView { name: self.name@, args: self.args.deep_view() }
    }
}

impl MethodDecl {
    /// The probe that the method declares if it breaks no rule.
    pub open spec fn probe(&self) -> ProbeSpecView {
        ProbeSpecView { name: self.name@, args: self.args.deep_view() }
    }

    /// A plain method without arguments.
    pub fn new(name: &str) -> (method: Self)
        ensures
            method.name@ == name@,
            method.shape == plain_shape(),
            method.args.deep_view() == Seq::<ProbeArgView>::empty(),
    {
        let method = MethodDecl {
            name: String::from_str(name),
            shape: MethodShape::plain(),
            args: Vec::new(),
        };
        assert(method.args.deep_view() =~= Seq::<ProbeArgView>::empty());
        method
    }

    /// Adds an argument after those the method takes.
    pub fn with_arg(self, arg: ProbeArgSpecification) -> (method: Self)
        ensures
            method.name@ == self.name@,
            method.shape == self.shape,
            method.args.deep_view() == self.args.deep_view().push(arg.deep_view()),
    {
        let mut method = self;
        method.args.push(arg);
        assert(method.args.deep_view() =~= self.args.deep_view().push(arg.deep_view()));
        method
    }
}

impl ProbeSpecification {
    /// The description of the probe that a method declares.  A method that
    /// breaks a rule gives the error of the first rule it breaks, at the
    /// position `index` of the method in its trait.
    pub fn from_method(index: usize, method: &MethodDecl) -> (probe: Result<Self, ProberError>)
        ensures
            match method_violation(method.shape) {
                Some(violation) => probe is Err && probe->Err_0@ == violation_error(
                    violation,
                    ErrorSite::Item(index),
                ),
                None => probe is Ok && probe->Ok_0.deep_view() == method.probe(),
            },
    {
        match method.shape.check() {
            Some(violation) => Err(ProberError::violation(violation, ErrorSite::Item(index))),
            None => Ok(
                ProbeSpecification { name: method.name.clone(), args: duplicate_args(&method.args) },
            ),
        }
    }

    /// The probe as text, for messages.
    pub fn describe(&self) -> (text: String)
        ensures
            text@ == probe_text(self.deep_view()),
    {
        let mut text = String::from_str("ProbeSpecification(name='");
        text.append(self.name.as_str());
        text.append("', args=(");
        let mut i: usize = 0;
        assert(self.args.deep_view().take(0) =~= Seq::empty());
        assert(text@ =~= "ProbeSpecification(name='"@ + self.name@ + "', args=("@ + args_text(
            self.args.deep_view().take(0),
        ));
        while i < self.args.len()
            invariant
                i <= self.args.len(),
                text@ == "ProbeSpecification(name='"@ + self.name@ + "', args=("@ + args_text(
                    self.args.deep_view().take(i as int),
                ),
            decreases self.args.len() - i,
        {
            proof {
                let all = self.args.deep_view();
                assert(all.take(i + 1).drop_last() =~= all.take(i as int));
                assert(all.take(i + 1).last() == all[i as int]);
            }
            let ghost before = text@;
            if i > 0 {
                text.append(", ");
            }
            text.append(self.args[i].name.as_str());
            text.append(": ");
            text.append(self.args[i].type_text.as_str());
            assert(text@ =~= "ProbeSpecification(name='"@ + self.name@ + "', args=("@ + args_text(
                self.args.deep_view().take(i + 1),
            ));
            i += 1;
        }
        assert(self.args.deep_view().take(i as int) =~= self.args.deep_view());
        text.append("))");
        text
    }

    /// The lifetime parameters that the arguments of the probe need, in the
    /// order of the arguments.
    pub fn args_lifetime_parameters(&self) -> (lifetimes: Vec<String>)
        ensures
            lifetimes.deep_view() == arg_lifetimes(self.deep_view().args),
    {
        let mut lifetimes: Vec<String> = Vec::new();
        let mut i: usize = 0;
        assert(self.args.deep_view().take(0) =~= Seq::empty());
        assert(lifetimes.deep_view() =~= Seq::empty());
        while i < self.args.len()
            invariant
                i <= self.args.len(),
                lifetimes.deep_view() == arg_lifetimes(self.args.deep_view().take(i as int)),
            decreases self.args.len() - i,
        {
            let ghost before = lifetimes.deep_view();
            let mut more = duplicate_texts(&self.args[i].lifetimes);
            let ghost added = more.deep_view();
            lifetimes.append(&mut more);
            proof {
                let all = self.args.deep_view();
                assert(all.take(i + 1).drop_last() =~= all.take(i as int));
                assert(all.take(i + 1).last() == all[i as int]);
                assert(lifetimes.deep_view() =~= before + added);
            }
            i += 1;
        }
        assert(self.args.deep_view().take(i as int) =~= self.args.deep_view());
        lifetimes
    }
}

/// A list of arguments as text: each as its name, a colon and its type, with
/// a comma between two of them.
pub open spec fn args_text(args: Seq<ProbeArgView>) -> Seq<char>
    decreases args.len(),
{
    if args.len() == 0 {
        Seq::empty()
    } else if args.len() == 1 {
        args.last().name + ": "@ + args.last().type_text
    } else {
        args_text(args.drop_last()) + ", "@ + args.last().name + ": "@ + args.last().type_text
    }
}

/// A probe as text.
pub open spec fn probe_text(probe: ProbeSpecView) -> Seq<char> {
    "ProbeSpecification(name='"@ + probe.name + "', args=("@ + args_text(probe.args) + "))"@
}

/// The lifetime parameters that a list of arguments needs, in order.
pub open spec fn arg_lifetimes(args: Seq<ProbeArgView>) -> Seq<Seq<char>>
    decreases args.len(),
{
    if args.len() == 0 {
        Seq::empty()
    } else {
        arg_lifetimes(args.drop_last()) + args.last().lifetimes
    }
}

/// The lifetime parameters that a list of probes needs, in order.
pub open spec fn probe_lifetimes(probes: Seq<ProbeSpecView>) -> Seq<Seq<char>>
    decreases probes.len(),
{
    if probes.len() == 0 {
        Seq::empty()
    } else {
        probe_lifetimes(probes.drop_last()) + arg_lifetimes(probes.last().args)
    }
}

/// The parameters of the type that holds the probes of a provider: `'a`,
/// then the lifetime parameters of every reference argument of every probe,
/// in order.
pub fn get_provider_struct_type_params(probes: &Vec<ProbeSpecification>) -> (params: Vec<String>)
    ensures
        params.deep_view() == seq!["'a"@] + probe_lifetimes(probes.deep_view()),
{
    let mut params: Vec<String> = Vec::new();
    params.push(String::from_str("'a"));
    let mut i: usize = 0;
    assert(probes.deep_view().take(0) =~= Seq::empty());
    assert(params.deep_view() =~= seq!["'a"@] + Seq::empty());
    while i < probes.len()
        invariant
            i <= probes.len(),
            params.deep_view() == seq!["'a"@] + probe_lifetimes(probes.deep_view().take(i as int)),
        decreases probes.len() - i,
    {
        let ghost before = params.deep_view();
        let mut more = probes[i].args_lifetime_parameters();
        let ghost added = more.deep_view();
        params.append(&mut more);
        proof {
            let all = probes.deep_view();
            assert(all.take(i + 1).drop_last() =~= all.take(i as int));
            assert(all.take(i + 1).last() == all[i as int]);
            assert(params.deep_view() =~= before + added);
            assert(seq!["'a"@] + probe_lifetimes(all.take(i as int)) + added =~= seq!["'a"@] + (
            probe_lifetimes(all.take(i as int)) + added));
        }
        i += 1;
    }
    assert(probes.deep_view().take(i as int) =~= probes.deep_view());
    params
}

/// The rule that an item of a trait breaks, if it breaks one: anything but a
/// method breaks one, and a method may.
pub open spec fn item_violation(item: TraitItemDecl) -> Option<Violation> {
    match item {
        TraitItemDecl::Method(method) => method_violation(method.shape),
        _ => Some(Violation::NotAMethod),
    }
}

/// The error of the first item at or after `from` that breaks a rule, if
/// one does.
pub open spec fn items_violation(items: Seq<TraitItemDecl>, from: int) -> Option<ErrorView>
    decreases items.len() - from,
{
    if from < 0 || from >= items.len() {
        None
    } else {
        match item_violation(items[from]) {
            Some(violation) => Some(violation_error(violation, ErrorSite::Item(from as usize))),
            None => items_violation(items, from + 1),
        }
    }
}

/// The probe that an item declares.
pub open spec fn probe_of(item: TraitItemDecl) -> ProbeSpecView {
    item->Method_0.probe()
}

/// The probes that the items of a trait declare, in order.
pub open spec fn probes_of(items: Seq<TraitItemDecl>) -> Seq<ProbeSpecView> {
    items.map_values(|item: TraitItemDecl| probe_of(item))
}

/// The error of the first rule that a trait breaks, if it breaks one.
pub open spec fn trait_violation(item: TraitDecl) -> Option<ErrorView> {
    if item.has_type_params || item.has_lifetimes {
        Some(violation_error(Violation::TraitParameters, ErrorSite::Trait))
    } else {
        items_violation(item.items@, 0)
    }
}

/// The probes that the items of a trait declare, in order.  If an item is no
/// method, or a method that breaks a rule, the result is the error of the
/// first such item.
pub fn get_probes(item: &TraitDecl) -> (probes: Result<Vec<ProbeSpecification>, ProberError>)
    ensures
        match items_violation(item.items@, 0) {
            Some(error) => probes is Err && probes->Err_0@ == error,
            None => probes is Ok && probes->Ok_0.deep_view() == probes_of(item.items@),
        },
{
    let mut specs: Vec<ProbeSpecification> = Vec::new();
    let mut i: usize = 0;
    while i < item.items.len()
        invariant
            i <= item.items.len(),
            items_violation(item.items@, 0) == items_violation(item.items@, i as int),
            specs@.len() == i,
            forall|j: int| 0 <= j < i ==> (#[trigger] specs@[j]).deep_view() == probe_of(item.items@[j]),
        decreases item.items.len() - i,
    {
        match &item.items[i] {
            TraitItemDecl::Method(method) => {
                match ProbeSpecification::from_method(i, method) {
                    Ok(spec) => {
                        specs.push(spec);
                    },
                    Err(error) => {
                        return Err(error);
                    },
                }
            },
            _ => {
                return Err(ProberError::violation(Violation::NotAMethod, ErrorSite::Item(i)));
            },
        }
        i += 1;
    }
    assert(specs.deep_view() =~= probes_of(item.items@));
    Ok(specs)
}

/// The probes that a trait declares.  A trait that takes parameters, or
/// holds anything but methods fit to be probes, gives the error of the first
/// rule it breaks.
pub fn find_probes(item: &TraitDecl) -> (probes: Result<Vec<ProbeSpecification>, ProberError>)
    ensures
        match trait_violation(*item) {
            Some(error) => probes is Err && probes->Err_0@ == error,
            None => probes is Ok && probes->Ok_0.deep_view() == probes_of(item.items@),
        },
{
    if item.has_type_params || item.has_lifetimes {
        return Err(ProberError::violation(Violation::TraitParameters, ErrorSite::Trait));
    }
    get_probes(item)
}

/// What the description of a provider says, as plain values.
pub struct ProviderSpecView {
    pub name: Seq<char>,
    pub hash: u64,
    pub probes: Seq<ProbeSpecView>,
}

/// The description of a provider: its name, a hash of the text of its
/// trait, and its probes in order.
#[derive(Debug)]
pub struct ProviderSpecification {
    name: String,
    hash: u64,
    probes: Vec<ProbeSpecification>,
}

impl DeepView for ProviderSpecification {
    type V = ProviderSpecView;

    closed spec fn deep_view(&self) -> ProviderSpecView {
        ProviderSpecView { name: self.name@, hash: self.hash, probes: self.probes.deep_view() }
    }
}

/// A list of probes as text: each on a line of its own, indented, with a
/// comma after it.
pub open spec fn probe_lines(probes: Seq<ProbeSpecView>) -> Seq<char>
    decreases probes.len(),
{
    if probes.len() == 0 {
        Seq::empty()
    } else {
        probe_lines(probes.drop_last()) + "        "@ + probe_text(probes.last()) + ",\n"@
    }
}

/// A provider as text.
pub open spec fn provider_text(provider: ProviderSpecView) -> Seq<char> {
    "ProviderSpecification(\n    name='"@ + provider.name + "',\n    probes:\n"@ + probe_lines(
        provider.probes,
    ) + ")"@
}

/// The provider that a trait declares if it breaks no rule.
pub open spec fn provider_of(item: TraitDecl) -> ProviderSpecView {
    ProviderSpecView {
        name: provider_name(item.name@),
        hash: item.hash,
        probes: probes_of(item.items@),
    }
}

impl ProviderSpecification {
    /// The description of the provider that a trait declares, named by the
    /// snake case form of the trait's name.
    pub fn from_trait(item_trait: &TraitDecl) -> (provider: Result<Self, ProberError>)
        ensures
            match trait_violation(*item_trait) {
                Some(error) => provider is Err && provider->Err_0@ == error,
                None => provider is Ok && provider->Ok_0.deep_view() == provider_of(*item_trait),
            },
    {
        match find_probes(item_trait) {
            Ok(probes) => Ok(
                ProviderSpecification {
                    name: get_provider_name(item_trait.name.as_str()),
                    hash: item_trait.hash,
                    probes,
                },
            ),
            Err(error) => Err(error),
        }
    }

    /// The name of the provider.
    pub fn name(&self) -> (name: &str)
        ensures
            name@ == self.deep_view().name,
    {
        self.name.as_str()
    }

    /// The hash of the text of the trait.
    pub fn hash(&self) -> (hash: u64)
        ensures
            hash == self.deep_view().hash,
    {
        self.hash
    }

    /// The probes of the provider.
    pub fn probes(&self) -> (probes: &Vec<ProbeSpecification>)
        ensures
            probes.deep_view() == self.deep_view().probes,
    {
        &self.probes
    }

    /// The provider as text, for messages: its name, then its probes, one
    /// to a line.
    pub fn describe(&self) -> (text: String)
        ensures
            text@ == provider_text(self.deep_view()),
    {
        let mut text = String::from_str("ProviderSpecification(\n    name='");
        text.append(self.name.as_str());
        text.append("',\n    probes:\n");
        let mut i: usize = 0;
        assert(self.probes.deep_view().take(0) =~= Seq::empty());
        assert(text@ =~= "ProviderSpecification(\n    name='"@ + self.name@
            + "',\n    probes:\n"@ + probe_lines(self.probes.deep_view().take(0)));
        while i < self.probes.len()
            invariant
                i <= self.probes.len(),
                text@ == "ProviderSpecification(\n    name='"@ + self.name@
                    + "',\n    probes:\n"@ + probe_lines(self.probes.deep_view().take(i as int)),
            decreases self.probes.len() - i,
        {
            proof {
                let all = self.probes.deep_view();
                assert(all.take(i + 1).drop_last() =~= all.take(i as int));
                assert(all.take(i + 1).last() == all[i as int]);
            }
            let probe = self.probes[i].describe();
            text.append("        ");
            text.append(probe.as_str());
            text.append(",\n");
            assert(text@ =~= "ProviderSpecification(\n    name='"@ + self.name@
                + "',\n    probes:\n"@ + probe_lines(self.probes.deep_view().take(i + 1)));
            i += 1;
        }
        assert(self.probes.deep_view().take(i as int) =~= self.probes.deep_view());
        text.append(")");
        text
    }

    /// The name of the provider with the hash after it.
    pub fn name_with_hash(&self) -> (hashed: String)
        ensures
            hashed@ == crate::naming::hashed_name(self.deep_view().name, self.deep_view().hash),
    {
        crate::naming::name_with_hash(self.name.as_str(), self.hash)
    }

    /// The name of the source file of the native part of the provider.
    pub fn native_provider_source_filename(&self) -> (file: String)
        ensures
            file@ == crate::naming::hashed_name(self.deep_view().name, self.deep_view().hash)
                + ".cpp"@,
    {
        crate::naming::native_provider_source_filename(self.name.as_str(), self.hash)
    }

    /// The name of the library file of the native part of the provider.
    pub fn native_provider_lib_filename(&self) -> (file: String)
        ensures
            file@ == crate::naming::hashed_name(self.deep_view().name, self.deep_view().hash)
                + ".a"@,
    {
        crate::naming::native_provider_lib_filename(self.name.as_str(), self.hash)
    }
}

/// Whether the last segment of an attribute's path is `prober`.
pub open spec fn is_prober_path(path: Seq<String>) -> bool {
    path.len() > 0 && path.last()@ == "prober"@
}

/// Whether one of the attributes marks a trait as a provider.
pub open spec fn has_prober_attribute(attributes: Seq<Vec<String>>) -> bool {
    exists|i: int| 0 <= i < attributes.len() && is_prober_path(#[trigger] attributes[i]@)
}

/// Whether the last segment of an attribute's path is `prober`.
pub fn is_prober_attribute(path: &Vec<String>) -> (marked: bool)
    ensures
        marked == is_prober_path(path@),
{
    let n = path.len();
    if n == 0 {
        false
    } else {
        str_eq(path[n - 1].as_str(), "prober")
    }
}

/// Whether one of the attributes of a trait marks it as a provider.
pub fn is_marked_as_provider(attributes: &Vec<Vec<String>>) -> (marked: bool)
    ensures
        marked == has_prober_attribute(attributes@),
{
    let mut i: usize = 0;
    while i < attributes.len()
        invariant
            i <= attributes.len(),
            forall|j: int| 0 <= j < i ==> !is_prober_path(#[trigger] attributes@[j]@),
        decreases attributes.len() - i,
    {
        if is_prober_attribute(&attributes[i]) {
            return true;
        }
        i += 1;
    }
    false
}

/// Whether a trait declares a provider: it is marked as one and breaks no
/// rule.
pub open spec fn is_provider(item: TraitDecl) -> bool {
    has_prober_attribute(item.attributes@) && trait_violation(item) is None
}

/// The providers that a list of traits declares, in order.
pub open spec fn providers_of(traits: Seq<TraitDecl>) -> Seq<ProviderSpecView>
    decreases traits.len(),
{
    if traits.len() == 0 {
        Seq::empty()
    } else if is_provider(traits.last()) {
        providers_of(traits.drop_last()).push(provider_of(traits.last()))
    } else {
        providers_of(traits.drop_last())
    }
}

/// The providers that the traits of a source file declare, in the order of
/// the traits.  A trait that is marked as a provider but breaks a rule is
/// passed over in silence.
pub fn find_providers(traits: &Vec<TraitDecl>) -> (providers: Vec<ProviderSpecification>)
    ensures
        providers.deep_view() == providers_of(traits@),
{
    let mut providers: Vec<ProviderSpecification> = Vec::new();
    let mut i: usize = 0;
    assert(traits@.take(0) =~= Seq::empty());
    assert(providers.deep_view() =~= Seq::empty());
    while i < traits.len()
        invariant
            i <= traits.len(),
            providers.deep_view() == providers_of(traits@.take(i as int)),
        decreases traits.len() - i,
    {
        let ghost before = providers.deep_view();
        proof {
            assert(traits@.take(i + 1).drop_last() =~= traits@.take(i as int));
            assert(traits@.take(i + 1).last() == traits@[i as int]);
        }
        if is_marked_as_provider(&traits[i].attributes) {
            match ProviderSpecification::from_trait(&traits[i]) {
                Ok(provider) => {
                    providers.push(provider);
                    assert(providers.deep_view() =~= before.push(provider.deep_view()));
                },
                Err(_) => {},
            }
        }
        i += 1;
    }
    assert(traits@.take(i as int) =~= traits@);
    providers
}

/// The names of the accessors of a list of probes, in order.
pub open spec fn accessors_of(probes: Seq<ProbeSpecView>) -> Seq<Seq<char>> {
    probes.map_values(|probe: ProbeSpecView| probe_accessor_name(probe.name))
}

/// What the code of a provider is made from, as plain values.
pub struct ProviderPlanView {
    pub trait_name: Seq<char>,
    pub provider_name: Seq<char>,
    pub mod_name: Seq<char>,
    pub struct_type_name: Seq<char>,
    pub struct_var_name: Seq<char>,
    pub instance_var_name: Seq<char>,
    pub struct_type_params: Seq<Seq<char>>,
    pub probes: Seq<ProbeSpecView>,
    pub accessors: Seq<Seq<char>>,
}

/// What the code of a provider is made from: every name in it, the
/// parameters of the type that holds its probes, and its probes with the
/// name of the accessor of each.
#[derive(Debug)]
pub struct ProviderPlan {
    pub trait_name: String,
    pub provider_name: String,
    pub mod_name: String,
    pub struct_type_name: String,
    pub struct_var_name: String,
    pub instance_var_name: String,
    pub struct_type_params: Vec<String>,
    pub probes: Vec<ProbeSpecification>,
    pub accessors: Vec<String>,
}

impl DeepView for ProviderPlan {
    type V = ProviderPlanView;

    open spec fn deep_view(&self) -> ProviderPlanView {
        ProviderPlanView {
            trait_name: self.trait_name@,
            provider_name: self.provider_name@,
            mod_name: self.mod_name@,
            struct_type_name: self.struct_type_name@,
            struct_var_name: self.struct_var_name@,
            instance_var_name: self.instance_var_name@,
            struct_type_params: self.struct_type_params.deep_view(),
            probes: self.probes.deep_view(),
            accessors: self.accessors.deep_view(),
        }
    }
}

/// The plan of the provider that a trait declares if it breaks no rule.
pub open spec fn plan_of(item: TraitDecl) -> ProviderPlanView {
    ProviderPlanView {
        trait_name: item.name@,
        provider_name: provider_name(item.name@),
        mod_name: provider_impl_mod_name(item.name@),
        struct_type_name: provider_impl_struct_type_name(item.name@),
        struct_var_name: provider_impl_struct_var_name(item.name@),
        instance_var_name: provider_instance_var_name(item.name@),
        struct_type_params: seq!["'a"@] + probe_lifetimes(probes_of(item.items@)),
        probes: probes_of(item.items@),
        accessors: accessors_of(probes_of(item.items@)),
    }
}

/// The names of the accessors of a list of probes, in order.
pub fn probe_accessor_names(probes: &Vec<ProbeSpecification>) -> (names: Vec<String>)
    ensures
        names.deep_view() == accessors_of(probes.deep_view()),
{
    let mut names: Vec<String> = Vec::new();
    let mut i: usize = 0;
    while i < probes.len()
        invariant
            i <= probes.len(),
            names@.len() == i,
            forall|j: int| 0 <= j < i ==> (#[trigger] names@[j])@ == probe_accessor_name(probes@[j].name@),
        decreases probes.len() - i,
    {
        names.push(get_probe_accessor_name(probes[i].name.as_str()));
        i += 1;
    }
    assert(names.deep_view() =~= accessors_of(probes.deep_view()));
    names
}

/// Turns the trait that declares a provider into the plan of the provider's
/// code, or into the error of the first rule that the trait breaks.
pub fn prober_impl(item: &TraitDecl) -> (plan: Result<ProviderPlan, ProberError>)
    ensures
        match trait_violation(*item) {
            Some(error) => plan is Err && plan->Err_0@ == error,
            None => plan is Ok && plan->Ok_0.deep_view() == plan_of(*item),
        },
{
    match find_probes(item) {
        Ok(probes) => {
            let trait_name = item.name.as_str();
            let struct_type_params = get_provider_struct_type_params(&probes);
            let accessors = probe_accessor_names(&probes);
            Ok(
                ProviderPlan {
                    trait_name: item.name.clone(),
                    provider_name: get_provider_name(trait_name),
                    mod_name: get_provider_impl_mod_name(trait_name),
                    struct_type_name: get_provider_impl_struct_type_name(trait_name),
                    struct_var_name: get_provider_impl_struct_var_name(trait_name),
                    instance_var_name: get_provider_instance_var_name(trait_name),
                    struct_type_params,
                    probes,
                    accessors,
                },
            )
        },
        Err(error) => Err(error),
    }
}

/// What stands where a call names what it calls.
#[derive(Debug)]
pub enum Callee {
    /// A path, as its segments in order.
    Path(Vec<String>),
    /// Any other expression, as text.
    Other(String),
}

/// The expression handed to the probe macro.
#[derive(Debug)]
pub enum ProbeCall {
    /// A call.
    Call(Callee),
    /// Any other expression.
    Other,
}

/// The path of the accessor of the probe that a path names: the same path
/// with the accessor's name in place of the probe's.  A path without
/// segments stays as it is.
pub open spec fn accessor_path(path: Seq<Seq<char>>) -> Seq<Seq<char>> {
    if path.len() == 0 {
        path
    } else {
        path.update(path.len() - 1, probe_accessor_name(path.last()))
    }
}

/// The path of the accessor of the probe that a path names.
pub fn probe_accessor_path(path: &Vec<String>) -> (accessor: Vec<String>)
    ensures
        accessor.deep_view() == accessor_path(path.deep_view()),
{
    let mut accessor = duplicate_texts(path);
    assert(accessor.deep_view().len() == path.deep_view().len());
    let n = accessor.len();
    if n > 0 {
        let name = get_probe_accessor_name(path[n - 1].as_str());
        accessor.set(n - 1, name);
        assert(accessor.deep_view() =~= accessor_path(path.deep_view()));
    }
    accessor
}

/// Turns what looks like a call of a probe method into the path of the
/// accessor of that probe.  The call site then asks the accessor for the
/// probe and, if the probe is there and enabled, evaluates the arguments of
/// the call and fires.  An expression that is no call, or calls something
/// that is no path, is an error.
pub fn probe_impl(call: &ProbeCall) -> (accessor: Result<Vec<String>, ProberError>)
    ensures
        match *call {
            ProbeCall::Call(Callee::Path(path)) => accessor is Ok && accessor->Ok_0.deep_view()
                == accessor_path(path.deep_view()),
            ProbeCall::Call(Callee::Other(text)) => accessor is Err && accessor->Err_0@ == (
            ErrorView {
                message: crate::error::unexpected_callee_message(text@),
                site: ErrorSite::Call,
            }),
            ProbeCall::Other => accessor is Err && accessor->Err_0@ == violation_error(
                Violation::NotACall,
                ErrorSite::Call,
            ),
        },
{
    match call {
        ProbeCall::Call(Callee::Path(path)) => Ok(probe_accessor_path(path)),
        ProbeCall::Call(Callee::Other(text)) => Err(ProberError::unexpected_callee(text.as_str())),
        ProbeCall::Other => Err(ProberError::violation(Violation::NotACall, ErrorSite::Call)),
    }
}

} // verus!
