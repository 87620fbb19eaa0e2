//! Type-directed conversion of probe arguments to their wire representation.
//!
//! Every supported argument type names a wrapper type.  A wrapper is cheap to
//! build and converts its argument only when asked to.  A wrapper around a
//! thunk runs the thunk inside the conversion, once per conversion and never
//! before.  New argument types are added by implementing the two traits for
//! them; nothing that exists has to change.
use crate::wire::{WireType, WireValue};
use vstd::prelude::*;

verus! {

/// A type the backend takes as it is.
pub trait ProbeArgNativeType<'a>: Sized {
    /// The representation of every value of this type.
    spec fn spec_wire_type() -> WireType;

    /// The wire value that stands for `self`.
    spec fn spec_wire_value(self) -> WireValue<'a>;

    /// Whether `self` is the placeholder of this type.
    spec fn is_placeholder(self) -> bool;

    fn wire_type() -> (t: WireType)
        ensures
            t == Self::spec_wire_type(),
    ;

    fn to_wire_value(self) -> (v: WireValue<'a>)
        ensures
            v == self.spec_wire_value(),
            v.wire_type() == Self::spec_wire_type(),
    ;

    fn placeholder() -> (d: Self)
        ensures
            d.is_placeholder(),
    ;
}

impl<'a> ProbeArgNativeType<'a> for i8 {
    open spec fn spec_wire_type() -> WireType {
        WireType::I8
    }

    open spec fn spec_wire_value(self) -> WireValue<'a> {
        WireValue::I8(self)
    }

    open spec fn is_placeholder(self) -> bool {
        self == 0
    }

    fn wire_type() -> (t: WireType) {
        WireType::I8
    }

    fn to_wire_value(self) -> (v: WireValue<'a>) {
        WireValue::I8(self)
    }

    fn placeholder() -> (d: Self) {
        0
    }
}

impl<'a> ProbeArgNativeType<'a> for u8 {
    open spec fn spec_wire_type() -> WireType {
        WireType::U8
    }

    open spec fn spec_wire_value(self) -> WireValue<'a> {
        WireValue::U8(self)
    }

    open spec fn is_placeholder(self) -> bool {
        self == 0
    }

    fn wire_type() -> (t: WireType) {
        WireType::U8
    }

    fn to_wire_value(self) -> (v: WireValue<'a>) {
        WireValue::U8(self)
    }

    fn placeholder() -> (d: Self) {
        0
    }
}

impl<'a> ProbeArgNativeType<'a> for i16 {
    open spec fn spec_wire_type() -> WireType {
        WireType::I16
    }

    open spec fn spec_wire_value(self) -> WireValue<'a> {
        WireValue::I16(self)
    }

    open spec fn is_placeholder(self) -> bool {
        self == 0
    }

    fn wire_type() -> (t: WireType) {
        WireType::I16
    }

    fn to_wire_value(self) -> (v: WireValue<'a>) {
        WireValue::I16(self)
    }

    fn placeholder() -> (d: Self) {
        0
    }
}

impl<'a> ProbeArgNativeType<'a> for u16 {
    open spec fn spec_wire_type() -> WireType {
        WireType::U16
    }

    open spec fn spec_wire_value(self) -> WireValue<'a> {
        WireValue::U16(self)
    }

    open spec fn is_placeholder(self) -> bool {
        self == 0
    }

    fn wire_type() -> (t: WireType) {
        WireType::U16
    }

    fn to_wire_value(self) -> (v: WireValue<'a>) {
        WireValue::U16(self)
    }

    fn placeholder() -> (d: Self) {
        0
    }
}

impl<'a> ProbeArgNativeType<'a> for i32 {
    open spec fn spec_wire_type() -> WireType {
        WireType::I32
    }

    open spec fn spec_wire_value(self) -> WireValue<'a> {
        WireValue::I32(self)
    }

    open spec fn is_placeholder(self) -> bool {
        self == 0
    }

    fn wire_type() -> (t: WireType) {
        WireType::I32
    }

    fn to_wire_value(self) -> (v: WireValue<'a>) {
        WireValue::I32(self)
    }

    fn placeholder() -> (d: Self) {
        0
    }
}

impl<'a> ProbeArgNativeType<'a> for u32 {
    open spec fn spec_wire_type() -> WireType {
        WireType::U32
    }

    open spec fn spec_wire_value(self) -> WireValue<'a> {
        WireValue::U32(self)
    }

    open spec fn is_placeholder(self) -> bool {
        self == 0
    }

    fn wire_type() -> (t: WireType) {
        WireType::U32
    }

    fn to_wire_value(self) -> (v: WireValue<'a>) {
        WireValue::U32(self)
    }

    fn placeholder() -> (d: Self) {
        0
    }
}

impl<'a> ProbeArgNativeType<'a> for i64 {
    open spec fn spec_wire_type() -> WireType {
        WireType::I64
    }

    open spec fn spec_wire_value(self) -> WireValue<'a> {
        WireValue::I64(self)
    }

    open spec fn is_placeholder(self) -> bool {
        self == 0
    }

    fn wire_type() -> (t: WireType) {
        WireType::I64
    }

    fn to_wire_value(self) -> (v: WireValue<'a>) {
        WireValue::I64(self)
    }

    fn placeholder() -> (d: Self) {
        0
    }
}

impl<'a> ProbeArgNativeType<'a> for u64 {
    open spec fn spec_wire_type() -> WireType {
        WireType::U64
    }

    open spec fn spec_wire_value(self) -> WireValue<'a> {
        WireValue::U64(self)
    }

    open spec fn is_placeholder(self) -> bool {
        self == 0
    }

    fn wire_type() -> (t: WireType) {
        WireType::U64
    }

    fn to_wire_value(self) -> (v: WireValue<'a>) {
        WireValue::U64(self)
    }

    fn placeholder() -> (d: Self) {
        0
    }
}

impl<'a> ProbeArgNativeType<'a> for isize {
    open spec fn spec_wire_type() -> WireType {
        WireType::ISize
    }

    open spec fn spec_wire_value(self) -> WireValue<'a> {
        WireValue::ISize(self)
    }

    open spec fn is_placeholder(self) -> bool {
        self == 0
    }

    fn wire_type() -> (t: WireType) {
        WireType::ISize
    }

    fn to_wire_value(self) -> (v: WireValue<'a>) {
        WireValue::ISize(self)
    }

    fn placeholder() -> (d: Self) {
        0
    }
}

impl<'a> ProbeArgNativeType<'a> for usize {
    open spec fn spec_wire_type() -> WireType {
        WireType::USize
    }

    open spec fn spec_wire_value(self) -> WireValue<'a> {
        WireValue::USize(self)
    }

    open spec fn is_placeholder(self) -> bool {
        self == 0
    }

    fn wire_type() -> (t: WireType) {
        WireType::USize
    }

    fn to_wire_value(self) -> (v: WireValue<'a>) {
        WireValue::USize(self)
    }

    fn placeholder() -> (d: Self) {
        0
    }
}

impl<'a> ProbeArgNativeType<'a> for &'a [u8] {
    open spec fn spec_wire_type() -> WireType {
        WireType::Bytes
    }

    open spec fn spec_wire_value(self) -> WireValue<'a> {
        WireValue::Bytes(self)
    }

    open spec fn is_placeholder(self) -> bool {
        self@ == Seq::<u8>::empty()
    }

    fn wire_type() -> (t: WireType) {
        WireType::Bytes
    }

    fn to_wire_value(self) -> (v: WireValue<'a>) {
        WireValue::Bytes(self)
    }

    fn placeholder() -> (d: Self) {
        let empty: &'a str = "";
        proof {
            reveal_strlit("");
        }
        empty.as_bytes()
    }
}

/// A wrapper around one probe argument of type `T`.
///
/// Building a wrapper performs no conversion.  `to_c_type` performs it.
pub trait ProbeArgWrapper<'a, T>: Sized {
    /// The representation the argument is converted to.
    type CType: ProbeArgNativeType<'a>;

    /// The argument this wrapper was built from.
    spec fn held(&self) -> T;

    /// Whether `arg` can be converted by a wrapper of this type.
    spec fn can_convert(arg: T) -> bool;

    /// Whether converting `arg` may give `wire`.
    spec fn converts_to(arg: T, wire: Self::CType) -> bool;

    fn new(arg: T) -> (w: Self)
        ensures
            w.held() == arg,
    ;

    fn to_c_type(&mut self) -> (wire: Self::CType)
        requires
            Self::can_convert(old(self).held()),
        ensures
            Self::converts_to(old(self).held(), wire),
            final(self).held() == old(self).held(),
    ;

    fn default_c_value() -> (wire: Self::CType)
        ensures
            wire.is_placeholder(),
    ;
}

/// A wrapper whose conversion gives the same wire value for the same
/// argument every time.
pub trait DeterministicArgWrapper<'a, T>: ProbeArgWrapper<'a, T> {
    /// Any two results of converting one argument stand for the same wire
    /// value.
    proof fn conversion_is_deterministic(arg: T, first: Self::CType, second: Self::CType)
        requires
            Self::converts_to(arg, first),
            Self::converts_to(arg, second),
        ensures
            first.spec_wire_value()@ == second.spec_wire_value()@,
    ;
}

/// An argument type, with the wrapper that converts it.
pub trait ProbeArgType<'a, T> {
    type WrapperType: ProbeArgWrapper<'a, T>;
}

/// The representation that arguments of type `T` have on the wire.
pub open spec fn spec_wire_type_of<'a, T: ProbeArgType<'a, T>>() -> WireType {
    <<T::WrapperType as ProbeArgWrapper<'a, T>>::CType as ProbeArgNativeType<'a>>::spec_wire_type()
}

/// Whether marshalling `arg` may give the wire value `v`.
pub open spec fn marshals_to<'a, T: ProbeArgType<'a, T>>(arg: T, v: WireValue<'a>) -> bool {
    exists|wire: <T::WrapperType as ProbeArgWrapper<'a, T>>::CType|
        #![trigger wire.spec_wire_value()]
        <T::WrapperType as ProbeArgWrapper<'a, T>>::converts_to(arg, wire) && v
            == wire.spec_wire_value()
}

/// Whether `arg` can be marshalled.
pub open spec fn can_marshal<'a, T: ProbeArgType<'a, T>>(arg: T) -> bool {
    <T::WrapperType as ProbeArgWrapper<'a, T>>::can_convert(arg)
}

/// Wraps an argument without converting it.
pub fn wrap<'a, T: ProbeArgType<'a, T>>(arg: T) -> (w: T::WrapperType)
    ensures
        w.held() == arg,
{
    <T::WrapperType as ProbeArgWrapper<'a, T>>::new(arg)
}

/// The representation that arguments of type `T` have on the wire.
pub fn wire_type_of<'a, T: ProbeArgType<'a, T>>() -> (t: WireType)
    ensures
        t == spec_wire_type_of::<T>(),
{
    <<T::WrapperType as ProbeArgWrapper<'a, T>>::CType as ProbeArgNativeType<'a>>::wire_type()
}

/// Wraps and converts one argument.
pub fn marshal<'a, T: ProbeArgType<'a, T>>(arg: T) -> (v: WireValue<'a>)
    requires
        can_marshal(arg),
    ensures
        marshals_to(arg, v),
        v.wire_type() == spec_wire_type_of::<T>(),
{
    let mut w = wrap(arg);
    let wire = w.to_c_type();
    wire.to_wire_value()
}

/// The placeholder wire value of arguments of type `T`, for use where a value
/// of the right representation is needed and the argument must not be
/// computed.
pub fn default_wire_value<'a, T: ProbeArgType<'a, T>>() -> (v: WireValue<'a>)
    ensures
        v.wire_type() == spec_wire_type_of::<T>(),
        exists|wire: <T::WrapperType as ProbeArgWrapper<'a, T>>::CType|
            #![trigger wire.spec_wire_value()]
            wire.is_placeholder() && v == wire.spec_wire_value(),
{
    let wire = <T::WrapperType as ProbeArgWrapper<'a, T>>::default_c_value();
    wire.to_wire_value()
}

/// Wrapper of an argument that the backend takes unchanged.
pub struct NativeProbeArgWrapper<T>(pub T);

impl<'a, T: ProbeArgNativeType<'a> + Copy> ProbeArgWrapper<'a, T> for NativeProbeArgWrapper<T> {
    type CType = T;

    open spec fn held(&self) -> T {
        self.0
    }

    open spec fn can_convert(arg: T) -> bool {
        true
    }

    open spec fn converts_to(arg: T, wire: T) -> bool {
        wire == arg
    }

    fn new(arg: T) -> (w: Self) {
        NativeProbeArgWrapper(arg)
    }

    fn to_c_type(&mut self) -> (wire: T) {
        self.0
    }

    fn default_c_value() -> (wire: T) {
        T::placeholder()
    }
}

impl<'a, T: ProbeArgNativeType<'a> + Copy> DeterministicArgWrapper<'a, T> for NativeProbeArgWrapper<
    T,
> {
    proof fn conversion_is_deterministic(arg: T, first: T, second: T) {
    }
}

impl<'a> ProbeArgType<'a, i8> for i8 {
    type WrapperType = NativeProbeArgWrapper<i8>;
}

impl<'a> ProbeArgType<'a, u8> for u8 {
    type WrapperType = NativeProbeArgWrapper<u8>;
}

impl<'a> ProbeArgType<'a, i16> for i16 {
    type WrapperType = NativeProbeArgWrapper<i16>;
}

impl<'a> ProbeArgType<'a, u16> for u16 {
    type WrapperType = NativeProbeArgWrapper<u16>;
}

impl<'a> ProbeArgType<'a, i32> for i32 {
    type WrapperType = NativeProbeArgWrapper<i32>;
}

impl<'a> ProbeArgType<'a, u32> for u32 {
    type WrapperType = NativeProbeArgWrapper<u32>;
}

impl<'a> ProbeArgType<'a, i64> for i64 {
    type WrapperType = NativeProbeArgWrapper<i64>;
}

impl<'a> ProbeArgType<'a, u64> for u64 {
    type WrapperType = NativeProbeArgWrapper<u64>;
}

impl<'a> ProbeArgType<'a, isize> for isize {
    type WrapperType = NativeProbeArgWrapper<isize>;
}

impl<'a> ProbeArgType<'a, usize> for usize {
    type WrapperType = NativeProbeArgWrapper<usize>;
}

/// The wire value of a boolean: `1` for `true`, `0` for `false`.
pub open spec fn bool_wire(b: bool) -> i32 {
    if b {
        1
    } else {
        0
    }
}

/// Wrapper of a boolean argument.
pub struct BoolProbeArgWrapper(pub bool);

impl<'a> ProbeArgWrapper<'a, bool> for BoolProbeArgWrapper {
    type CType = i32;

    open spec fn held(&self) -> bool {
        self.0
    }

    open spec fn can_convert(arg: bool) -> bool {
        true
    }

    open spec fn converts_to(arg: bool, wire: i32) -> bool {
        wire == bool_wire(arg)
    }

    fn new(arg: bool) -> (w: Self) {
        BoolProbeArgWrapper(arg)
    }

    fn to_c_type(&mut self) -> (wire: i32) {
        if self.0 {
            1
        } else {
            0
        }
    }

    fn default_c_value() -> (wire: i32) {
        0
    }
}

impl<'a> DeterministicArgWrapper<'a, bool> for BoolProbeArgWrapper {
    proof fn conversion_is_deterministic(arg: bool, first: i32, second: i32) {
    }
}

impl<'a> ProbeArgType<'a, bool> for bool {
    type WrapperType = BoolProbeArgWrapper;
}

/// Wrapper of a text argument.  Its wire value borrows the UTF-8 bytes of
/// the text: a pointer and a length, with no terminator and no copy.
pub struct StrProbeArgWrapper<'a>(pub &'a str);

impl<'a> ProbeArgWrapper<'a, &'a str> for StrProbeArgWrapper<'a> {
    type CType = &'a [u8];

    open spec fn held(&self) -> &'a str {
        self.0
    }

    open spec fn can_convert(arg: &'a str) -> bool {
        true
    }

    open spec fn converts_to(arg: &'a str, wire: &'a [u8]) -> bool {
        wire@ == vstd::utf8::encode_utf8(arg@)
    }

    fn new(arg: &'a str) -> (w: Self) {
        StrProbeArgWrapper(arg)
    }

    fn to_c_type(&mut self) -> (wire: &'a [u8]) {
        self.0.as_bytes()
    }

    fn default_c_value() -> (wire: &'a [u8]) {
        <&'a [u8] as ProbeArgNativeType<'a>>::placeholder()
    }
}

impl<'a> DeterministicArgWrapper<'a, &'a str> for StrProbeArgWrapper<'a> {
    proof fn conversion_is_deterministic(arg: &'a str, first: &'a [u8], second: &'a [u8]) {
    }
}

impl<'a> ProbeArgType<'a, &'a str> for &'a str {
    type WrapperType = StrProbeArgWrapper<'a>;
}


/// Whether a thunk can be run and whatever it returns can be converted.
pub open spec fn thunk_can_convert<'a, T: ProbeArgType<'a, T>, F: Fn() -> T>(thunk: &F) -> bool {
    &&& call_requires(*thunk, ())
    &&& forall|value: T| call_ensures(*thunk, (), value) ==> can_marshal(value)
}

/// Whether running a thunk and converting what it returns may give `wire`.
pub open spec fn thunk_converts_to<'a, T: ProbeArgType<'a, T>, F: Fn() -> T>(
    thunk: &F,
    wire: <T::WrapperType as ProbeArgWrapper<'a, T>>::CType,
) -> bool {
    exists|value: T| #[trigger]
        call_ensures(*thunk, (), value) && <T::WrapperType as ProbeArgWrapper<
            'a,
            T,
        >>::converts_to(value, wire)
}

/// Wrapper of an argument given as a thunk.
///
/// The thunk is stored, not run, when the wrapper is built.  Each call of
/// `to_c_type` runs it once and converts what it returned.
pub struct FuncProbeArgTypeWrapper<'a, T, F>(pub &'a F, pub core::marker::PhantomData<T>);

impl<'a, T: ProbeArgType<'a, T>, F: Fn() -> T> FuncProbeArgTypeWrapper<'a, T, F> {
    /// Stores the thunk.  The thunk is not run.
    pub fn new(arg: &'a F) -> (w: Self)
        ensures
            w.0 == arg,
    {
        FuncProbeArgTypeWrapper(arg, core::marker::PhantomData)
    }

    /// Runs the thunk once and converts what it returned.
    pub fn to_c_type(&mut self) -> (wire: <T::WrapperType as ProbeArgWrapper<'a, T>>::CType)
        requires
            thunk_can_convert(old(self).0),
        ensures
            thunk_converts_to(old(self).0, wire),
            final(self).0 == old(self).0,
    {
        let arg: T = (self.0)();
        assert(call_ensures(*old(self).0, (), arg));
        assert(can_marshal(arg));
        let mut wrapped = wrap(arg);
        wrapped.to_c_type()
    }

    /// The placeholder of the type that the thunk returns.  The thunk is not
    /// run.
    pub fn default_c_value() -> (wire: <T::WrapperType as ProbeArgWrapper<'a, T>>::CType)
        ensures
            wire.is_placeholder(),
    {
        <T::WrapperType as ProbeArgWrapper<'a, T>>::default_c_value()
    }
}

impl<'a, T: ProbeArgType<'a, T>, F: Fn() -> T> ProbeArgWrapper<'a, &'a F> for FuncProbeArgTypeWrapper<
    'a,
    T,
    F,
> {
    type CType = <T::WrapperType as ProbeArgWrapper<'a, T>>::CType;

    open spec fn held(&self) -> &'a F {
        self.0
    }

    open spec fn can_convert(arg: &'a F) -> bool {
        thunk_can_convert(arg)
    }

    open spec fn converts_to(arg: &'a F, wire: Self::CType) -> bool {
        thunk_converts_to(arg, wire)
    }

    fn new(arg: &'a F) -> (w: Self) {
        FuncProbeArgTypeWrapper::new(arg)
    }

    fn to_c_type(&mut self) -> (wire: Self::CType) {
        FuncProbeArgTypeWrapper::to_c_type(self)
    }

    fn default_c_value() -> (wire: Self::CType) {
        FuncProbeArgTypeWrapper::<'a, T, F>::default_c_value()
    }
}

impl<'a, T: ProbeArgType<'a, T>, F: Fn() -> T> ProbeArgType<'a, &'a F> for &'a F {
    type WrapperType = FuncProbeArgTypeWrapper<'a, T, F>;
}

/// Runs a thunk once and marshals what it returned.
pub fn marshal_thunk<'a, T: ProbeArgType<'a, T>, F: Fn() -> T>(thunk: &'a F) -> (v: WireValue<'a>)
    requires
        thunk_can_convert(thunk),
    ensures
        exists|value: T| #[trigger] call_ensures(*thunk, (), value) && marshals_to(value, v),
        v.wire_type() == spec_wire_type_of::<T>(),
{
    let mut w = FuncProbeArgTypeWrapper::new(thunk);
    let wire = w.to_c_type();
    wire.to_wire_value()
}

/// Whether a thunk can return one value only.
pub open spec fn thunk_is_deterministic<T, F: Fn() -> T>(thunk: &F) -> bool {
    forall|first: T, second: T|
        call_ensures(*thunk, (), first) && call_ensures(*thunk, (), second) ==> first == second
}

/// Converting a thunk that can return one value only, whose result type
/// converts deterministically, gives the same wire value every time.
pub proof fn thunk_conversion_is_deterministic<'a, T, F>(
    thunk: &'a F,
    first: <T::WrapperType as ProbeArgWrapper<'a, T>>::CType,
    second: <T::WrapperType as ProbeArgWrapper<'a, T>>::CType,
) where
    T: ProbeArgType<'a, T>,
    T::WrapperType: DeterministicArgWrapper<'a, T>,
    F: Fn() -> T,

    requires
        thunk_is_deterministic(thunk),
        thunk_converts_to(thunk, first),
        thunk_converts_to(thunk, second),
    ensures
        first.spec_wire_value()@ == second.spec_wire_value()@,
{
    let a = choose|value: T| #[trigger]
        call_ensures(*thunk, (), value) && <T::WrapperType as ProbeArgWrapper<
            'a,
            T,
        >>::converts_to(value, first);
    let b = choose|value: T| #[trigger]
        call_ensures(*thunk, (), value) && <T::WrapperType as ProbeArgWrapper<
            'a,
            T,
        >>::converts_to(value, second);
    assert(a == b);
    <T::WrapperType as DeterministicArgWrapper<'a, T>>::conversion_is_deterministic(
        a,
        first,
        second,
    );
}

} // verus!
