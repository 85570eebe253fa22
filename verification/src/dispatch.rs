use vstd::prelude::*;

use crate::config::{config_model, AppConfig};
use crate::decimal::{decimal_chars, u32_to_decimal};
use crate::errors::DispatchError;
use crate::link::{link_kind, AppState, DroneLink, MavSessionHandle, SerialPortHandle};
use crate::motor::{motor_index, resolved_token, Motor, MotorPosition};
use mavlink::dialects::common::MavMessage as CommonMavMessage;
use mavlink::dialects::common::{MavCmd, COMMAND_LONG_DATA};
use mavlink::MavConnection;
use std::io::Write;

verus! {

/// The pulse-width value the serial protocol encodes for a rate: 1000 plus
/// ten per percent.
pub open spec fn serial_value(rate: u32) -> int {
    1000 + rate * 10
}

/// The full ASCII line for one motor command: `<token>::<value>` and a
/// trailing newline.
pub open spec fn serial_line(m: MotorPosition, serial_test: bool, rate: u32) -> Seq<char> {
    resolved_token(m, serial_test) + "::"@ + decimal_chars(serial_value(rate)) + "\n"@
}

/// For every admissible rate the serial-encoded value is `1000 + rate * 10`
/// and lies in the inclusive range [1000, 2000].
pub proof fn lemma_serial_value_bounds(rate: u32)
    requires
        rate <= 100,
    ensures
        serial_value(rate) == 1000 + rate * 10,
        1000 <= serial_value(rate) <= 2000,
{
}

/// Builds the ASCII serial line for a motor-test intent. Rates above 100
/// percent are rejected before anything is encoded; encoding is pure and
/// performs no I/O.
pub fn encode_serial_line(m: &MotorPosition, rate: u32, serial_test: bool) -> (r: Result<
    String,
    DispatchError,
>)
    ensures
        rate <= 100 ==> (r matches Ok(s) && s@ == serial_line(*m, serial_test, rate)),
        rate > 100 ==> r == Err::<String, DispatchError>(DispatchError::CapacityExceeded),
{
    if rate > 100 {
        return Err(DispatchError::CapacityExceeded);
    }
    let value: u32 = 1000 + rate * 10;
    let mut s = String::from_str(m.resolve_id(serial_test));
    s.append("::");
    let v = u32_to_decimal(value);
    s.append(v.as_str());
    s.append("\n");
    proof {
        assert(s@ =~= serial_line(*m, serial_test, rate));
    }
    Ok(s)
}

/// The field content of one COMMAND_LONG motor-test frame, as plain
/// integers: the motor index as first parameter, a fixed zero second
/// parameter, the rate as third, the fixed percent-test selector as fourth,
/// then the target and source identifiers of the frame's addressing.
pub struct MotorTestFrame {
    pub motor_index: u16,
    pub zero_param: u16,
    pub throttle_percent: u16,
    pub test_kind: u16,
    pub target_system: u8,
    pub target_component: u8,
    pub source_system: u8,
    pub source_component: u8,
    pub sequence: u8,
}

/// Builds the MAVLink motor-test frame for an intent: motor index first,
/// rate third, percent-test selector 2 fourth, target system and component
/// both 1, and the constant header identity 255/0 with sequence 0. Encoding
/// is pure and performs no I/O.
pub fn encode_mav_frame(m: &MotorPosition, rate: u32) -> (f: MotorTestFrame)
    requires
        rate <= 100,
    ensures
        f.motor_index == motor_index(*m),
        f.zero_param == 0,
        f.throttle_percent == rate,
        f.test_kind == 2,
        f.target_system == 1,
        f.target_component == 1,
        f.source_system == 255,
        f.source_component == 0,
        f.sequence == 0,
{
    let idx = m.as_idx();
    MotorTestFrame {
        motor_index: idx as u16,
        zero_param: 0,
        throttle_percent: rate as u16,
        test_kind: 2,
        target_system: 1,
        target_component: 1,
        source_system: 255,
        source_component: 0,
        sequence: 0,
    }
}

/// Relies on `std::io::Write::write_all` through the open serial handle:
/// hands the line's bytes to the port. Whether the write succeeds depends on
/// the device, so only the success flag is promised.
#[verifier::external_body]
fn serial_write_all(h: &mut SerialPortHandle, line: &str) -> (r: bool) {
    h.port.write_all(line.as_bytes()).is_ok()
}

/// Relies on `MavConnection::send` of the mavlink crate: emits one
/// COMMAND_LONG frame carrying MAV_CMD_DO_MOTOR_TEST with exactly the given
/// field values, the integer parameters widened into the wire's float
/// fields and the remaining parameters left at their zero defaults. Whether
/// the send succeeds depends on the device, so only the success flag is
/// promised.
#[verifier::external_body]
fn mav_send_motor_test(h: &MavSessionHandle, f: &MotorTestFrame) -> (r: bool) {
    let hdr = mavlink::MavHeader { system_id: f.source_system, component_id: f.source_component, sequence: f.sequence };
    let data = COMMAND_LONG_DATA {
        param1: f.motor_index.into(),
        param2: f.zero_param.into(),
        param3: f.throttle_percent.into(),
        param4: f.test_kind.into(),
        target_system: f.target_system,
        target_component: f.target_component,
        command: MavCmd::MAV_CMD_DO_MOTOR_TEST,
        ..Default::default()
    };
    h.conn.send(&hdr, &CommonMavMessage::COMMAND_LONG(data)).is_ok()
}

/// True when the given configuration selects the ASCII serial transport.
pub fn is_serial_connect(app_config: &AppConfig) -> (r: bool)
    ensures
        r == (app_config.connect_type is Esp32),
{
    match app_config.connect_type {
        crate::config::ConnectType::Esp32 => true,
        _ => false,
    }
}

/// Dispatch never mutates the registry's observable state: the handle's
/// kind (and its presence), the connected flag and the configuration are all
/// as before — a dispatch only writes through the handle.
pub open spec fn registry_shape_kept(pre: AppState, post: AppState) -> bool {
    &&& post.is_connected == pre.is_connected
    &&& config_model(post.config) == config_model(pre.config)
    &&& match (pre.conn, post.conn) {
        (Some(a), Some(b)) => link_kind(b) == link_kind(a),
        (None, None) => true,
        _ => false,
    }
}

/// Writes one already-encoded line to the active serial handle. Usable only
/// while the configuration selects the serial transport; there, a missing or
/// mismatched handle, like a failed write, is a write error.
pub fn send_serial_raw(state: &mut AppState, text: &str) -> (r: Result<(), DispatchError>)
    ensures
        registry_shape_kept(*old(state), *final(state)),
        old(state).wf() ==> final(state).wf(),
        !(old(state).config.connect_type is Esp32) ==> r == Err::<(), DispatchError>(
            DispatchError::NotSerialTransport,
        ),
        old(state).config.connect_type is Esp32 && !(old(state).conn matches Some(l)
            && l is ESP32) ==> r == Err::<(), DispatchError>(DispatchError::WriteError),
        old(state).config.connect_type is Esp32 && (old(state).conn matches Some(l)
            && l is ESP32) ==> (r is Ok || r == Err::<(), DispatchError>(
            DispatchError::WriteError,
        )),
        r is Ok ==> old(state).config.connect_type is Esp32 && (old(state).conn matches Some(l)
            && l is ESP32),
{
    if !is_serial_connect(&state.config) {
        return Err(DispatchError::NotSerialTransport);
    }
    match &mut state.conn {
        Some(DroneLink::ESP32(h)) => {
            if serial_write_all(h, text) {
                Ok(())
            } else {
                Err(DispatchError::WriteError)
            }
        },
        _ => Err(DispatchError::WriteError),
    }
}

/// Where the dispatcher routes a motor-test intent given the registry's
/// state, and which outcomes each route admits. Rates above 100 percent are
/// rejected outright. Under a serial configuration the line goes to the
/// serial handle, and anything but a serial handle that accepted the write
/// is a write error. Under a non-serial configuration an absent handle is
/// reported; a MAVLink handle always answers success, its send being
/// fire-and-forget; a serial handle falls back to the serial write path.
pub open spec fn dispatch_outcome(pre: AppState, rate: u32, r: Result<(), DispatchError>) -> bool {
    &&& rate > 100 ==> r == Err::<(), DispatchError>(DispatchError::CapacityExceeded)
    &&& rate <= 100 ==> if pre.config.connect_type is Esp32 {
        &&& (pre.conn matches Some(l) && l is ESP32) ==> (r is Ok || r == Err::<(),
            DispatchError,
        >(DispatchError::WriteError))
        &&& !(pre.conn matches Some(l) && l is ESP32) ==> r == Err::<(), DispatchError>(
            DispatchError::WriteError,
        )
    } else {
        match pre.conn {
            None => r == Err::<(), DispatchError>(DispatchError::NoActiveConnection),
            Some(DroneLink::Pixhawk(_)) => r is Ok,
            Some(DroneLink::ESP32(_)) => r is Ok || r == Err::<(), DispatchError>(
                DispatchError::WriteError,
            ),
        }
    }
}

/// The dispatcher: validates the rate, then encodes the intent for the
/// transport the registry's configuration and handle select, and performs
/// exactly one write through that handle. The registry itself is not
/// mutated.
pub fn send_motor_test(state: &mut AppState, motor: MotorPosition, rate: u32) -> (r: Result<
    (),
    DispatchError,
>)
    ensures
        registry_shape_kept(*old(state), *final(state)),
        old(state).wf() ==> final(state).wf(),
        dispatch_outcome(*old(state), rate, r),
        rate > 100 ==> *final(state) == *old(state),
{
    if rate > 100 {
        return Err(DispatchError::CapacityExceeded);
    }
    let is_serial = is_serial_connect(&state.config);
    if is_serial {
        let line = match encode_serial_line(&motor, rate, false) {
            Ok(l) => l,
            Err(e) => {
                return Err(e);
            },
        };
        send_serial_raw(state, line.as_str())
    } else {
        match &mut state.conn {
            Some(DroneLink::Pixhawk(h)) => {
                let frame = encode_mav_frame(&motor, rate);
                // Fire-and-forget: one lost frame does not mean link loss, so
                // a failed send neither tears the connection down nor fails
                // the call.
                let _sent = mav_send_motor_test(h, &frame);
                Ok(())
            },
            Some(DroneLink::ESP32(h)) => {
                let line = match encode_serial_line(&motor, rate, false) {
                    Ok(l) => l,
                    Err(e) => {
                        return Err(e);
                    },
                };
                if serial_write_all(h, line.as_str()) {
                    Ok(())
                } else {
                    Err(DispatchError::WriteError)
                }
            },
            None => Err(DispatchError::NoActiveConnection),
        }
    }
}

impl Motor {
    /// Routes a motor-test intent for this motor's position through the
    /// active transport, as `send_motor_test` does.
    pub fn test(&self, state: &mut AppState, rate: u32) -> (r: Result<(), DispatchError>)
        ensures
            registry_shape_kept(*old(state), *final(state)),
            old(state).wf() ==> final(state).wf(),
            dispatch_outcome(*old(state), rate, r),
            rate > 100 ==> *final(state) == *old(state),
    {
        send_motor_test(state, self.position(), rate)
    }
}

} // verus!
