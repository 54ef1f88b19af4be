//! The firmware's policy for the one failure it can meet: a hardware fault
//! raised by the PWM channel when a duty value cannot be applied.

use vstd::prelude::*;

verus! {

/// The single kind of error in the system, raised when the PWM channel cannot
/// apply a duty value: the value lies outside the channel's configured
/// representable range, or the peripheral is in an invalid state.
#[derive(Clone, Copy, Debug, PartialEq, Eq, Structural)]
pub struct HardwareFault;

/// What the firmware can do once a fault has reached it.
#[derive(Clone, Copy, Debug, PartialEq, Eq, Structural)]
pub enum FaultAction {
    /// Stop making progress and hold the processor where it stands; the fade
    /// effect freezes.
    Halt,
    /// Attempt the failed operation again.
    Retry,
}

/// The fault policy. A hardware fault is unrecoverable: there is no
/// supervisory layer, and without a working output no forward progress can be
/// made, so the policy never retries — the device halts where it stands. The
/// on-device handler realises the returned action by spinning forever.
pub fn panic(fault: HardwareFault) -> (action: FaultAction)
    ensures
        action is Halt,
{
    let _ = fault;
    FaultAction::Halt
}

} // verus!
