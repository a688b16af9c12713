use vstd::prelude::*;

use crate::events::InputEvent;

verus! {

/// evdev's Device, held opaquely: an open input-device resource.
#[verifier::external_type_specification]
#[verifier::external_body]
pub struct ExDevice(evdev::Device);

/// A non-recoverable fault while multiplexing input devices. Each one is
/// fatal to the process: there is no hot-unplug tolerance.
#[derive(Clone, Copy, PartialEq, Eq, Structural, Debug)]
pub enum MuxError {
    /// The readiness wait itself failed.
    WaitFailed,
    /// The wait woke but no device has readable data: some device is in
    /// an error state (unplugged, hung up). There is no hot-unplug
    /// tolerance, so this is fatal.
    DeviceGone,
    /// A ready device could not be drained, or yielded no events.
    DrainFailed,
    /// A device reports no name.
    NoName,
}

/// One device's drained queue: which device of the set it came from,
/// and its events in arrival order.
#[derive(PartialEq, Eq, Debug)]
pub struct EventBatch {
    pub device_index: usize,
    pub events: Vec<InputEvent>,
}

/// Relies on nix's poll, called with no timeout: blocks until at least
/// one descriptor has status to report, then says for each whether it
/// has readable data now.
#[verifier::external_body]
fn wait_readable(devices: &Vec<(evdev::Device, i32)>) -> (r: Result<Vec<bool>, MuxError>)
    ensures
        r matches Ok(v) ==> v@.len() == devices@.len(),
{
    let mut pfds: Vec<nix::poll::PollFd> = devices.iter().map(
        |d| nix::poll::PollFd::new(d.1, nix::poll::PollFlags::POLLIN),
    ).collect();
    if nix::poll::poll(&mut pfds, -1).is_err() {
        return Err(MuxError::WaitFailed);
    }
    Ok(
        pfds.iter().map(
            |p| p.revents().map_or(false, |f| f.contains(nix::poll::PollFlags::POLLIN)),
        ).collect(),
    )
}

/// Relies on evdev's Device::fetch_events: drains the events buffered on
/// the device at `i` into a batch, in arrival order. Each event's 16-bit
/// category and sub-code widen into the 32-bit fields.
#[verifier::external_body]
fn drain_device(devices: &mut Vec<(evdev::Device, i32)>, i: usize) -> (r: Result<
    Vec<InputEvent>,
    MuxError,
>)
    requires
        i < old(devices)@.len(),
    ensures
        final(devices)@.len() == old(devices)@.len(),
        r matches Ok(v) ==> forall|k: int|
            0 <= k < v@.len() ==> (#[trigger] v@[k]).kind < 0x10000 && v@[k].code < 0x10000,
{
    match devices[i].0.fetch_events() {
        Ok(drained) => Ok(
            drained.map(
                |e| InputEvent {
                    kind: e.event_type().0 as u32,
                    code: e.code() as u32,
                    value: e.value() as u32,
                },
            ).collect(),
        ),
        Err(_) => Err(MuxError::DrainFailed),
    }
}

/// Relies on evdev's Device::name: the name the device at `i` reports,
/// if it reports one.
#[verifier::external_body]
fn name_of(devices: &Vec<(evdev::Device, i32)>, i: usize) -> (r: Option<String>)
    requires
        i < devices@.len(),
{
    devices[i].0.name().map(|s| s.to_owned())
}

/// Scans readiness flags in set order and picks the first device with
/// readable data: the deterministic lowest-index tie-break. Devices
/// later in the set can be starved by sustained load on an earlier one.
pub fn first_ready(flags: &Vec<bool>) -> (r: Option<usize>)
    ensures
        r matches Some(i) ==> i < flags@.len() && flags@[i as int] && (forall|j: int|
            0 <= j < i ==> !flags@[j]),
        r is None ==> forall|j: int| 0 <= j < flags@.len() ==> !flags@[j],
{
    let mut i: usize = 0;
    while i < flags.len()
        invariant
            i <= flags@.len(),
            forall|j: int| 0 <= j < i ==> !flags@[j],
        decreases flags@.len() - i,
    {
        if flags[i] {
            return Some(i);
        }
        i += 1;
    }
    None
}

/// Owns the fixed, ordered set of opened input devices, each paired with
/// its readiness-pollable descriptor. The order is the command-line
/// order and never changes after startup: poll results reference devices
/// by position.
pub struct DeviceSet {
    devices: Vec<(evdev::Device, i32)>,
}

impl DeviceSet {
    /// How many devices the set holds.
    pub closed spec fn count(&self) -> nat {
        self.devices@.len()
    }

    /// Takes ownership of the already-opened devices, in order, each
    /// beside the descriptor the readiness wait watches for it.
    pub fn new(devices: Vec<(evdev::Device, i32)>) -> (s: DeviceSet)
        ensures
            s.count() == devices@.len(),
    {
        DeviceSet { devices }
    }

    pub fn len(&self) -> (n: usize)
        ensures
            n == self.count(),
    {
        self.devices.len()
    }

    /// The name the device at `index` reports, for the script-visible
    /// `device_name` call. A nameless device is a fault.
    pub fn device_name(&self, index: usize) -> (r: Result<String, MuxError>)
        requires
            index < self.count(),
        ensures
            r matches Err(e) ==> e == MuxError::NoName,
    {
        match name_of(&self.devices, index) {
            Some(n) => Ok(n),
            None => Err(MuxError::NoName),
        }
    }

    /// Blocks with no timeout until at least one device of the set has
    /// status to report, drains the first ready device — and only it —
    /// and returns its whole queue as one non-empty batch. Other ready
    /// devices are left for the next call. A wake-up with no readable
    /// device means some device is in an error state, and a ready device
    /// that yields nothing is a broken drain: both are fatal, as is an
    /// I/O error from the wait or the drain itself.
    pub fn poll_next(&mut self) -> (r: Result<EventBatch, MuxError>)
        requires
            old(self).count() > 0,
        ensures
            final(self).count() == old(self).count(),
            r matches Ok(b) ==> b.device_index < old(self).count() && b.events@.len() > 0 && (
            forall|k: int|
                0 <= k < b.events@.len() ==> (#[trigger] b.events@[k]).kind < 0x10000
                    && b.events@[k].code < 0x10000),
    {
        let flags = match wait_readable(&self.devices) {
            Ok(f) => f,
            Err(e) => return Err(e),
        };
        let i = match first_ready(&flags) {
            Some(i) => i,
            None => return Err(MuxError::DeviceGone),
        };
        let events = match drain_device(&mut self.devices, i) {
            Ok(v) => v,
            Err(e) => return Err(e),
        };
        if events.len() == 0 {
            return Err(MuxError::DrainFailed);
        }
        Ok(EventBatch { device_index: i, events })
    }
}

} // verus!
