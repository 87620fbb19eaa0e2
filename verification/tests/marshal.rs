use probers::marshal::{
    default_wire_value, marshal, marshal_thunk, wire_type_of, wrap, BoolProbeArgWrapper, FuncProbeArgTypeWrapper,
    NativeProbeArgWrapper, ProbeArgNativeType, ProbeArgWrapper, StrProbeArgWrapper,
};
use probers::wire::{WireType, WireValue};
use std::cell::Cell;

#[test]
fn integer_passes_through_unchanged() {
    let mut w = wrap(42i32);
    assert_eq!(w.to_c_type(), 42i32);
    assert_eq!(w.to_c_type(), 42i32);
    assert_eq!(marshal(42i32), WireValue::I32(42));
    assert_eq!(marshal(-7i64), WireValue::I64(-7));
    assert_eq!(marshal(255u8), WireValue::U8(255));
    assert_eq!(marshal(usize::MAX), WireValue::USize(usize::MAX));
    assert_eq!(marshal(i16::MIN), WireValue::I16(i16::MIN));
}

#[test]
fn boolean_becomes_zero_or_one() {
    assert_eq!(wrap(true).to_c_type(), 1i32);
    assert_eq!(wrap(false).to_c_type(), 0i32);
    assert_eq!(marshal(true), WireValue::I32(1));
    assert_eq!(marshal(false), WireValue::I32(0));
}

#[test]
fn text_becomes_its_bytes() {
    let mut w = wrap("hello");
    let first = w.to_c_type();
    assert_eq!(first, b"hello");
    assert_eq!(first.len(), 5);
    assert_eq!(w.to_c_type(), first);
    assert_eq!(marshal("hello"), WireValue::Bytes(b"hello"));
    assert_eq!(marshal("h\u{e9}"), WireValue::Bytes(&[0x68, 0xc3, 0xa9]));
    assert_eq!(marshal(""), WireValue::Bytes(b""));
}

#[test]
fn conversion_repeats_with_the_same_result() {
    assert_eq!(marshal(42i32), marshal(42i32));
    assert_eq!(marshal("hello"), marshal("hello"));
    assert_eq!(marshal(true), marshal(true));
}

#[test]
fn wire_types_follow_the_argument_type() {
    assert_eq!(wire_type_of::<i8>(), WireType::I8);
    assert_eq!(wire_type_of::<u8>(), WireType::U8);
    assert_eq!(wire_type_of::<i16>(), WireType::I16);
    assert_eq!(wire_type_of::<u16>(), WireType::U16);
    assert_eq!(wire_type_of::<i32>(), WireType::I32);
    assert_eq!(wire_type_of::<u32>(), WireType::U32);
    assert_eq!(wire_type_of::<i64>(), WireType::I64);
    assert_eq!(wire_type_of::<u64>(), WireType::U64);
    assert_eq!(wire_type_of::<isize>(), WireType::ISize);
    assert_eq!(wire_type_of::<usize>(), WireType::USize);
    assert_eq!(wire_type_of::<bool>(), WireType::I32);
    assert_eq!(wire_type_of::<&str>(), WireType::Bytes);
    assert_eq!(<&[u8] as ProbeArgNativeType>::wire_type(), WireType::Bytes);
}

#[test]
fn placeholders_are_zero_or_empty() {
    assert_eq!(NativeProbeArgWrapper::<u64>::default_c_value(), 0u64);
    assert_eq!(BoolProbeArgWrapper::default_c_value(), 0i32);
    assert_eq!(StrProbeArgWrapper::default_c_value(), b"");
    assert_eq!(default_wire_value::<i32>(), WireValue::I32(0));
    assert_eq!(default_wire_value::<bool>(), WireValue::I32(0));
    assert_eq!(default_wire_value::<&str>(), WireValue::Bytes(b""));
}

#[test]
fn thunk_runs_in_conversion_and_not_before() {
    let calls = Cell::new(0u32);
    let thunk = || {
        calls.set(calls.get() + 1);
        42i32
    };
    let mut w = FuncProbeArgTypeWrapper::new(&thunk);
    assert_eq!(calls.get(), 0);
    assert_eq!(w.to_c_type(), 42i32);
    assert_eq!(calls.get(), 1);
}

#[test]
fn thunk_wraps_like_any_argument() {
    let calls = Cell::new(0u32);
    let thunk = || {
        calls.set(calls.get() + 1);
        "hello"
    };
    let w = wrap(&thunk);
    assert_eq!(calls.get(), 0);
    drop(w);
    assert_eq!(marshal(&thunk), WireValue::Bytes(b"hello"));
    assert_eq!(calls.get(), 1);
    assert_eq!(wire_type_of::<&fn() -> bool>(), WireType::I32);
}

#[test]
fn thunk_placeholder_does_not_run_the_thunk() {
    fn never() -> u16 {
        panic!("the thunk must not run")
    }
    let thunk: fn() -> u16 = never;
    let w = wrap(&thunk);
    drop(w);
    assert_eq!(default_wire_value::<&fn() -> u16>(), WireValue::U16(0));
}

#[test]
fn thunk_is_run_once_per_marshalling() {
    let calls = Cell::new(0u32);
    let thunk = || {
        calls.set(calls.get() + 1);
        calls.get() == 1
    };
    assert_eq!(marshal_thunk(&thunk), WireValue::I32(1));
    assert_eq!(calls.get(), 1);
    assert_eq!(marshal_thunk(&thunk), WireValue::I32(0));
    assert_eq!(calls.get(), 2);
    assert_eq!(FuncProbeArgTypeWrapper::<bool, fn() -> bool>::default_c_value(), 0i32);
    assert_eq!(calls.get(), 2);
}
