//! What is wrong with a declaration, and where.
use crate::naming::join;
use vstd::prelude::*;

verus! {

/// The part of the input that an error points at.
#[derive(Clone, Copy, Debug, PartialEq, Eq, Structural)]
pub enum ErrorSite {
    /// The trait as a whole.
    Trait,
    /// The item of the trait at this position.
    Item(usize),
    /// The expression handed to the probe macro.
    Call,
}

/// A rule that a declaration or a firing expression breaks.
#[derive(Clone, Copy, Debug, PartialEq, Eq, Structural)]
pub enum Violation {
    /// The trait takes lifetime or type parameters.
    TraitParameters,
    /// The trait holds something that is no method.
    NotAMethod,
    /// A method has a default implementation.
    DefaultImplementation,
    /// A method is `const`, `unsafe`, `async` or `extern`.
    Modifier,
    /// A method takes type parameters.
    MethodParameters,
    /// A method has a return type.
    ReturnType,
    /// A method takes `self`.
    SelfArgument,
    /// The expression is no call.
    NotACall,
}

/// What is said of each violation.
pub open spec fn violation_message(violation: Violation) -> Seq<char> {
    match violation {
        Violation::TraitParameters => "Probe traits must not take any lifetime or type parameters"@,
        Violation::NotAMethod => "Probe traits must consist entirely of methods, no other contents"@,
        Violation::DefaultImplementation => "Probe methods must NOT have a default implementation"@,
        Violation::Modifier => "Probe methods cannot be `const`, `unsafe`, `async`, or `extern \"C\"`"@,
        Violation::MethodParameters => "Probe methods must not take any type parameters; generics are not supported in probes"@,
        Violation::ReturnType => "Probe methods must not have an explicit return type (they return `()` implicitly)"@,
        Violation::SelfArgument => "Probe methods must not have any `self` args"@,
        Violation::NotACall => "The probe! macro requires the name of a provider trait and its probe method, e.g. MyProvider::myprobe(...)"@,
    }
}

/// What is said of a callee that is no path, given the callee as text.
pub open spec fn unexpected_callee_message(callee: Seq<char>) -> Seq<char> {
    "Unexpected expression for function call: "@ + callee
}

/// What an error says, as plain values.
pub struct ErrorView {
    pub message: Seq<char>,
    pub site: ErrorSite,
}

/// An error in a declaration or a firing expression: what is wrong, and
/// where.
#[derive(Debug)]
pub struct ProberError {
    pub message: String,
    pub site: ErrorSite,
}

impl View for ProberError {
    type V = ErrorView;

    open spec fn view(&self) -> ErrorView {
        ErrorView { message: self.message@, site: self.site }
    }
}

/// The error that stands for a violation at a site.
pub open spec fn violation_error(violation: Violation, site: ErrorSite) -> ErrorView {
    ErrorView { message: violation_message(violation), site }
}

/// What is said of each violation.
pub fn message_of(violation: Violation) -> (message: &'static str)
    ensures
        message@ == violation_message(violation),
{
    match violation {
        Violation::TraitParameters => "Probe traits must not take any lifetime or type parameters",
        Violation::NotAMethod => "Probe traits must consist entirely of methods, no other contents",
        Violation::DefaultImplementation => "Probe methods must NOT have a default implementation",
        Violation::Modifier => "Probe methods cannot be `const`, `unsafe`, `async`, or `extern \"C\"`",
        Violation::MethodParameters => "Probe methods must not take any type parameters; generics are not supported in probes",
        Violation::ReturnType => "Probe methods must not have an explicit return type (they return `()` implicitly)",
        Violation::SelfArgument => "Probe methods must not have any `self` args",
        Violation::NotACall => "The probe! macro requires the name of a provider trait and its probe method, e.g. MyProvider::myprobe(...)",
    }
}

impl ProberError {
    /// An error with the given message at the given site.
    pub fn new(message: &str, site: ErrorSite) -> (error: Self)
        ensures
            error@ == (ErrorView { message: message@, site }),
    {
        ProberError { message: String::from_str(message), site }
    }

    /// The error that stands for a violation at a site.
    pub fn violation(violation: Violation, site: ErrorSite) -> (error: Self)
        ensures
            error@ == violation_error(violation, site),
    {
        ProberError::new(message_of(violation), site)
    }

    /// The error for a callee that is no path, given the callee as text.
    pub fn unexpected_callee(callee: &str) -> (error: Self)
        ensures
            error@ == (ErrorView {
                message: unexpected_callee_message(callee@),
                site: ErrorSite::Call,
            }),
    {
        let message = join("Unexpected expression for function call: ", callee);
        ProberError { message, site: ErrorSite::Call }
    }
}

} // verus!
