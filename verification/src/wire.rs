//! The fixed representations that a tracing backend understands.
use vstd::prelude::*;

verus! {

/// The representation of one probe argument on the wire.
#[derive(Clone, Copy, Debug, PartialEq, Eq, Structural)]
pub enum WireType {
    I8,
    U8,
    I16,
    U16,
    I32,
    U32,
    I64,
    U64,
    ISize,
    USize,
    /// A borrowed byte sequence: a pointer together with a length.
    Bytes,
}

/// One marshalled argument, ready to be handed to the backend.
#[derive(Clone, Copy, Debug, PartialEq, Eq)]
pub enum WireValue<'a> {
    I8(i8),
    U8(u8),
    I16(i16),
    U16(u16),
    I32(i32),
    U32(u32),
    I64(i64),
    U64(u64),
    ISize(isize),
    USize(usize),
    Bytes(&'a [u8]),
}

impl<'a> WireValue<'a> {
    /// The representation this value has.
    pub open spec fn wire_type(self) -> WireType {
        match self {
            WireValue::I8(_) => WireType::I8,
            WireValue::U8(_) => WireType::U8,
            WireValue::I16(_) => WireType::I16,
            WireValue::U16(_) => WireType::U16,
            WireValue::I32(_) => WireType::I32,
            WireValue::U32(_) => WireType::U32,
            WireValue::I64(_) => WireType::I64,
            WireValue::U64(_) => WireType::U64,
            WireValue::ISize(_) => WireType::ISize,
            WireValue::USize(_) => WireType::USize,
            WireValue::Bytes(_) => WireType::Bytes,
        }
    }

    /// The representation this value has.
    pub fn kind(&self) -> (t: WireType)
        ensures
            t == self.wire_type(),
    {
        match self {
            WireValue::I8(_) => WireType::I8,
            WireValue::U8(_) => WireType::U8,
            WireValue::I16(_) => WireType::I16,
            WireValue::U16(_) => WireType::U16,
            WireValue::I32(_) => WireType::I32,
            WireValue::U32(_) => WireType::U32,
            WireValue::I64(_) => WireType::I64,
            WireValue::U64(_) => WireType::U64,
            WireValue::ISize(_) => WireType::ISize,
            WireValue::USize(_) => WireType::USize,
            WireValue::Bytes(_) => WireType::Bytes,
        }
    }
}

/// What a wire value says, apart from where its bytes live.
pub enum WireData {
    Integer(WireType, int),
    Bytes(Seq<u8>),
}

impl<'a> View for WireValue<'a> {
    type V = WireData;

    open spec fn view(&self) -> WireData {
        match *self {
            WireValue::I8(n) => WireData::Integer(WireType::I8, n as int),
            WireValue::U8(n) => WireData::Integer(WireType::U8, n as int),
            WireValue::I16(n) => WireData::Integer(WireType::I16, n as int),
            WireValue::U16(n) => WireData::Integer(WireType::U16, n as int),
            WireValue::I32(n) => WireData::Integer(WireType::I32, n as int),
            WireValue::U32(n) => WireData::Integer(WireType::U32, n as int),
            WireValue::I64(n) => WireData::Integer(WireType::I64, n as int),
            WireValue::U64(n) => WireData::Integer(WireType::U64, n as int),
            WireValue::ISize(n) => WireData::Integer(WireType::ISize, n as int),
            WireValue::USize(n) => WireData::Integer(WireType::USize, n as int),
            WireValue::Bytes(b) => WireData::Bytes(b@),
        }
    }
}

/// The representations of a tuple of wire values, in order.
pub open spec fn wire_types(args: Seq<WireValue>) -> Seq<WireType> {
    args.map_values(|v: WireValue| v.wire_type())
}

/// Whether `args` has exactly the arity and representations in `declared`.
pub open spec fn matches_signature(args: Seq<WireValue>, declared: Seq<WireType>) -> bool {
    wire_types(args) == declared
}

/// Decides whether a wire tuple has exactly the declared arity and
/// representations.
pub fn check_signature(args: &Vec<WireValue>, declared: &Vec<WireType>) -> (ok: bool)
    ensures
        ok == matches_signature(args@, declared@),
{
    if args.len() != declared.len() {
        return false;
    }
    let mut i: usize = 0;
    while i < args.len()
        invariant
            i <= args.len(),
            args.len() == declared.len(),
            forall|j: int| 0 <= j < i ==> (#[trigger] args@[j]).wire_type() == declared@[j],
        decreases args.len() - i,
    {
        if args[i].kind() != declared[i] {
            assert(wire_types(args@)[i as int] != declared@[i as int]);
            return false;
        }
        i += 1;
    }
    assert(wire_types(args@) =~= declared@);
    true
}

} // verus!
