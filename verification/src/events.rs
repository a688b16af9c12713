use vstd::prelude::*;

verus! {

/// A flattened, engine-agnostic view of one raw device event: category
/// code (`kind`), sub-code (`code`) and magnitude (`value`), all 32-bit.
/// An immutable value type with no identity beyond its fields.
#[derive(Clone, Copy, PartialEq, Eq, Structural, Debug)]
pub struct InputEvent {
    pub kind: u32,
    pub code: u32,
    pub value: u32,
}

/// One event in the native encoding of the synthetic output device:
/// 16-bit category and sub-code, 32-bit magnitude.
#[derive(Clone, Copy, PartialEq, Eq, Structural, Debug)]
pub struct NativeEvent {
    pub kind: u16,
    pub code: u16,
    pub value: u32,
}

/// The declared narrowing from a 32-bit category or sub-code to the
/// native 16-bit encoding: truncation to the low 16 bits.
pub open spec fn narrow16(x: u32) -> u16 {
    (x % 0x10000) as u16
}

/// The native event built from three 32-bit magnitudes: `kind` and
/// `code` are narrowed, `value` is carried over unchanged.
pub open spec fn native_of(kind: u32, code: u32, value: u32) -> NativeEvent {
    NativeEvent { kind: narrow16(kind), code: narrow16(code), value }
}

/// Narrows one 32-bit category or sub-code to the native 16-bit width.
pub fn narrow16_exec(x: u32) -> (r: u16)
    ensures
        r == narrow16(x),
{
    (x % 0x10000) as u16
}

/// Round trip: an input event whose category and sub-code already fit
/// the native width — as every event drained from a device does — maps
/// to a native event bit-identical in all three fields.
pub proof fn lemma_round_trip(e: InputEvent)
    requires
        e.kind < 0x10000,
        e.code < 0x10000,
    ensures
        native_of(e.kind, e.code, e.value).kind == e.kind,
        native_of(e.kind, e.code, e.value).code == e.code,
        native_of(e.kind, e.code, e.value).value == e.value,
{
}

} // verus!
