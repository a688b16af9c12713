use vstd::prelude::*;

use crate::events::NativeEvent;
use crate::events::narrow16_exec;
use crate::events::native_of;

verus! {

/// A script-constructed value handed to `emit`, as the relay sees it:
/// either not a record at all, or a record whose three named fields are
/// each present with a numeric value (`Some`) or missing or non-numeric
/// (`None`).
#[derive(Clone, Copy, PartialEq, Eq, Debug)]
pub enum ScriptEvent {
    NotARecord,
    Record { kind: Option<u32>, code: Option<u32>, value: Option<u32> },
}

/// Why `emit` refused a script-constructed value. Both cases are
/// recoverable: the call reports failure and execution continues.
#[derive(Clone, Copy, PartialEq, Eq, Structural, Debug)]
pub enum EmitError {
    /// The value was not a record.
    NotARecord,
    /// A record, but one of the three fields is missing or not numeric.
    BadField,
}

/// The output device could not be written: a non-recoverable fault.
#[derive(Clone, Copy, PartialEq, Eq, Structural, Debug)]
pub enum RelayError {
    WriteFailed,
}

/// A script value is acceptable to `emit` exactly when it is a record
/// whose `kind`, `code` and `value` fields are all present and numeric.
pub open spec fn event_valid(ev: ScriptEvent) -> bool {
    ev matches ScriptEvent::Record { kind: Some(_), code: Some(_), value: Some(_) }
}

/// The native event a valid script value resolves to.
pub open spec fn native_of_event(ev: ScriptEvent) -> NativeEvent
    recommends
        event_valid(ev),
{
    match ev {
        ScriptEvent::Record { kind: Some(k), code: Some(c), value: Some(v) } => native_of(k, c, v),
        _ => NativeEvent { kind: 0, code: 0, value: 0 },
    }
}

/// Resolves a script-constructed value to a native event, narrowing the
/// category and sub-code to the native width, or says exactly why not.
pub fn validate_event(ev: &ScriptEvent) -> (r: Result<NativeEvent, EmitError>)
    ensures
        event_valid(*ev) ==> r == Ok::<NativeEvent, EmitError>(native_of_event(*ev)),
        *ev is NotARecord ==> r == Err::<NativeEvent, EmitError>(EmitError::NotARecord),
        *ev matches ScriptEvent::Record { .. } && !event_valid(*ev)
            ==> r == Err::<NativeEvent, EmitError>(EmitError::BadField),
{
    match ev {
        ScriptEvent::NotARecord => Err(EmitError::NotARecord),
        ScriptEvent::Record { kind: Some(k), code: Some(c), value: Some(v) } => Ok(NativeEvent {
            kind: narrow16_exec(*k),
            code: narrow16_exec(*c),
            value: *v,
        }),
        ScriptEvent::Record { .. } => Err(EmitError::BadField),
    }
}

/// Round trip: an input event drained by the multiplexer — whose
/// category and sub-code therefore fit the native width — re-submitted
/// to `emit` unchanged resolves to a native event bit-identical in all
/// three fields.
pub proof fn lemma_relay_round_trip(e: crate::events::InputEvent)
    requires
        e.kind < 0x10000,
        e.code < 0x10000,
    ensures
        ({
            let ev = ScriptEvent::Record {
                kind: Some(e.kind),
                code: Some(e.code),
                value: Some(e.value),
            };
            &&& event_valid(ev)
            &&& native_of_event(ev).kind == e.kind
            &&& native_of_event(ev).code == e.code
            &&& native_of_event(ev).value == e.value
        }),
{
    crate::events::lemma_round_trip(e);
}

/// evdev's VirtualDevice, held opaquely: the open synthetic output
/// device, created once at startup with its fixed capability mask.
#[verifier::external_type_specification]
#[verifier::external_body]
pub struct ExVirtualDevice(evdev::uinput::VirtualDevice);

/// Owns the single synthetic output device handle and injects validated
/// events into it. `log()` is the sequence of native events the device
/// has observed through this relay, oldest first.
pub struct OutputRelay {
    device: evdev::uinput::VirtualDevice,
    emitted: Ghost<Seq<NativeEvent>>,
}

/// Relies on evdev's VirtualDevice::emit: writes the one given event to
/// the synthetic device, followed by a synchronization report.
#[verifier::external_body]
fn send_native(device: &mut evdev::uinput::VirtualDevice, ev: &NativeEvent) -> (r: Result<
    (),
    RelayError,
>) {
    let raw = evdev::InputEvent::new(ev.kind, ev.code, ev.value as i32);
    device.emit(&[raw]).map_err(|_| RelayError::WriteFailed)
}

impl OutputRelay {
    /// The native events injected so far, oldest first.
    pub closed spec fn log(&self) -> Seq<NativeEvent> {
        self.emitted@
    }

    /// Takes ownership of the already-opened output device handle.
    pub fn new(device: evdev::uinput::VirtualDevice) -> (r: OutputRelay)
        ensures
            r.log() == Seq::<NativeEvent>::empty(),
    {
        OutputRelay { device, emitted: Ghost(Seq::empty()) }
    }

    /// Validates a script-constructed value and, when it resolves to a
    /// record with all three numeric fields, writes the corresponding
    /// native event to the output device. A malformed value makes the
    /// call report failure (`Ok(false)`) with the device untouched; only
    /// a write fault on the device itself is an error.
    pub fn emit(&mut self, ev: &ScriptEvent) -> (r: Result<bool, RelayError>)
        ensures
            !event_valid(*ev) ==> r == Ok::<bool, RelayError>(false) && final(self).log()
                == old(self).log(),
            event_valid(*ev) ==> (r == Ok::<bool, RelayError>(true) && final(self).log() == old(
                self,
            ).log().push(native_of_event(*ev))) || (r == Err::<bool, RelayError>(
                RelayError::WriteFailed,
            ) && final(self).log() == old(self).log()),
    {
        match validate_event(ev) {
            Err(_) => Ok(false),
            Ok(n) => {
                match send_native(&mut self.device, &n) {
                    Ok(()) => {
                        self.emitted = Ghost(self.emitted@.push(n));
                        Ok(true)
                    },
                    Err(e) => Err(e),
                }
            },
        }
    }
}

} // verus!
