//! Enumeration monitor: a pure function of two consecutive device states.

use vstd::prelude::*;

verus! {

/// The global state of the USB device, as the device stack reports it.
#[derive(Clone, Copy, Debug, PartialEq, Eq, Structural)]
pub enum DeviceState {
    /// Just created or reset.
    Default,
    /// An address was received from the host.
    Addressed,
    /// Configured and fully functional.
    Configured,
    /// Suspended by the host, or unplugged.
    Suspend,
}

/// A meaningful edge of the enumeration state.
#[derive(Clone, Copy, Debug, PartialEq, Eq, Structural)]
pub enum EnumerationEvent {
    /// The device went from `Addressed` to `Configured`.
    Complete,
    /// The device left `Configured`.
    Lost,
}

/// The event, if any, that the pair (previous, current) of samples denotes.
pub open spec fn edge_spec(previous: DeviceState, current: DeviceState) -> Option<EnumerationEvent> {
    if previous == DeviceState::Addressed && current == DeviceState::Configured {
        Some(EnumerationEvent::Complete)
    } else if previous == DeviceState::Configured && current != DeviceState::Configured {
        Some(EnumerationEvent::Lost)
    } else {
        None
    }
}

/// Detects the enumeration edge between two consecutive samples of the
/// device state.  Only the single previous sample is taken into account.
pub fn edge(previous: DeviceState, current: DeviceState) -> (r: Option<EnumerationEvent>)
    ensures
        r == edge_spec(previous, current),
        r == Some(EnumerationEvent::Complete) <==> (previous == DeviceState::Addressed
            && current == DeviceState::Configured),
        r == Some(EnumerationEvent::Lost) <==> (previous == DeviceState::Configured && current
            != DeviceState::Configured),
        r is None <==> !((previous == DeviceState::Addressed && current == DeviceState::Configured)
            || (previous == DeviceState::Configured && current != DeviceState::Configured)),
{
    match (previous, current) {
        (DeviceState::Addressed, DeviceState::Configured) => Some(EnumerationEvent::Complete),
        (DeviceState::Configured, DeviceState::Configured) => None,
        (DeviceState::Configured, _) => Some(EnumerationEvent::Lost),
        _ => None,
    }
}

} // verus!
