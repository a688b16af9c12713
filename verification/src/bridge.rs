use vstd::prelude::*;

verus! {

/// The three capability-scoped operations the bridge registers with the
/// embedded script engine. They are the entire native surface reachable
/// from script code: no other path to devices, descriptors or system
/// calls may be exposed.
#[derive(Clone, Copy, PartialEq, Eq, Structural, Debug)]
pub enum BridgeCall {
    /// `device_name(handle) -> text`
    DeviceName,
    /// `poll_next(handle array) -> record array` with fields kind/code/value
    PollNext,
    /// `emit(handle, record) -> boolean`
    Emit,
}

/// The two read/write execution-context bindings the entry point sees:
/// the device set, as an array of opaque capabilities, and the single
/// output device handle.
#[derive(Clone, Copy, PartialEq, Eq, Structural, Debug)]
pub enum ContextBinding {
    Devices,
    Output,
}

/// Why the loaded script cannot be driven: the designated entry point
/// is absent, or present with the wrong arity. Both are fatal.
#[derive(Clone, Copy, PartialEq, Eq, Structural, Debug)]
pub enum BridgeError {
    EntryMissing,
    WrongArity,
}

/// The fixed API surface, in registration order: exactly these three
/// operations, nothing else.
pub fn api_surface() -> (r: Vec<BridgeCall>)
    ensures
        r@ == seq![BridgeCall::DeviceName, BridgeCall::PollNext, BridgeCall::Emit],
{
    let mut v: Vec<BridgeCall> = Vec::new();
    v.push(BridgeCall::DeviceName);
    v.push(BridgeCall::PollNext);
    v.push(BridgeCall::Emit);
    proof {
        assert(v@ =~= seq![BridgeCall::DeviceName, BridgeCall::PollNext, BridgeCall::Emit]);
    }
    v
}

/// The name each bridge operation is registered under.
pub fn call_name(c: &BridgeCall) -> (r: &'static str)
    ensures
        *c == BridgeCall::DeviceName ==> r@ == "device_name"@,
        *c == BridgeCall::PollNext ==> r@ == "next_events"@,
        *c == BridgeCall::Emit ==> r@ == "emit_event"@,
{
    match c {
        BridgeCall::DeviceName => "device_name",
        BridgeCall::PollNext => "next_events",
        BridgeCall::Emit => "emit_event",
    }
}

/// The two context bindings, in the order they are installed.
pub fn context_bindings() -> (r: Vec<ContextBinding>)
    ensures
        r@ == seq![ContextBinding::Devices, ContextBinding::Output],
{
    let mut v: Vec<ContextBinding> = Vec::new();
    v.push(ContextBinding::Devices);
    v.push(ContextBinding::Output);
    proof {
        assert(v@ =~= seq![ContextBinding::Devices, ContextBinding::Output]);
    }
    v
}

/// The name each context binding is installed under.
pub fn binding_name(b: &ContextBinding) -> (r: &'static str)
    ensures
        *b == ContextBinding::Devices ==> r@ == "evdevs"@,
        *b == ContextBinding::Output ==> r@ == "uinput"@,
{
    match b {
        ContextBinding::Devices => "evdevs",
        ContextBinding::Output => "uinput",
    }
}

/// The script's designated entry point: a function of this name.
pub fn entry_point_name() -> (r: &'static str)
    ensures
        r@ == "main"@,
{
    "main"
}

/// Decides whether the engine's report of the entry-point lookup lets
/// execution proceed: only a function found with arity zero does.
/// `found` is the arity of the resolved entry point, if one resolved.
pub fn check_entry(found: Option<usize>) -> (r: Result<(), BridgeError>)
    ensures
        r is Ok <==> found == Some(0usize),
        r == Err::<(), BridgeError>(BridgeError::EntryMissing) <==> found is None,
        r == Err::<(), BridgeError>(BridgeError::WrongArity) <==> (found matches Some(n) && n
            != 0),
{
    match found {
        None => Err(BridgeError::EntryMissing),
        Some(0) => Ok(()),
        Some(_) => Err(BridgeError::WrongArity),
    }
}

} // verus!
