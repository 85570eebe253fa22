use vstd::prelude::*;

use crate::config::{AppConfig, ConnectType};
use crate::dispatch::{dispatch_outcome, registry_shape_kept, send_motor_test};
use crate::errors::{dispatch_error_text, DispatchError};
use crate::link::{clear_connect_device, close_transition, open_transition, AppState};
use crate::motor::MotorPosition;

verus! {

/// Builds the configuration from the shell-facing arguments and opens it in
/// the registry; a failure is surfaced as its human-readable text.
pub fn connect_device(port: String, baud: u32, connect_type: ConnectType, state: &mut AppState) -> (r:
    Result<(), String>)
    ensures
        open_transition(
            *old(state),
            *final(state),
            (AppConfig { baud_rate: baud, port, connect_type }),
            r is Ok,
        ),
        connect_type is Stm32 ==> r is Ok,
{
    let device_config = AppConfig { baud_rate: baud, port, connect_type };
    match state.init_app(&device_config) {
        Ok(()) => Ok(()),
        Err(e) => Err(e.message()),
    }
}

/// Tears the active connection down; always a success, also when nothing was
/// connected.
pub fn disconnect_device(state: &mut AppState) -> (r: Result<(), String>)
    ensures
        r is Ok,
        close_transition(*old(state), *final(state)),
{
    clear_connect_device(state)
}

/// Runs one motor test through whatever transport is active; a failure is
/// surfaced as its human-readable text.
pub fn motor_test(state: &mut AppState, motor_id: MotorPosition, rate: u32) -> (r: Result<
    (),
    String,
>)
    ensures
        registry_shape_kept(*old(state), *final(state)),
        old(state).wf() ==> final(state).wf(),
        r is Ok ==> dispatch_outcome(*old(state), rate, Ok(())),
        r matches Err(s) ==> exists|e: DispatchError|
            dispatch_outcome(*old(state), rate, Err(e)) && s@ == dispatch_error_text(e),
        rate > 100 ==> *final(state) == *old(state) && (r matches Err(s) && s@
            == dispatch_error_text(DispatchError::CapacityExceeded)),
        rate <= 100 && old(state).conn is None && !(old(state).config.connect_type is Esp32)
            ==> (r matches Err(s) && s@ == dispatch_error_text(DispatchError::NoActiveConnection)),
{
    match send_motor_test(state, motor_id, rate) {
        Ok(()) => Ok(()),
        Err(e) => {
            let msg = String::from_str(e.message());
            proof {
                assert(dispatch_outcome(*old(state), rate, Err(e)) && msg@
                    == dispatch_error_text(e));
            }
            Err(msg)
        },
    }
}

} // verus!
