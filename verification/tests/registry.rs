use dronelink::commands::{connect_device, disconnect_device, motor_test};
use dronelink::config::{AppConfig, ConnectType};
use dronelink::dispatch::{is_serial_connect, send_motor_test, send_serial_raw};
use dronelink::errors::{ConnectError, DispatchError};
use dronelink::link::AppState;
use dronelink::motor::{Motor, MotorPosition};

fn fresh_state(kind: ConnectType) -> AppState {
    AppState::new(AppConfig {
        baud_rate: 115200,
        port: String::from("/dev/ttyACM0"),
        connect_type: kind,
    })
}

#[test]
fn fresh_registry_is_disconnected() {
    let state = fresh_state(ConnectType::Pixhawk);
    assert!(state.conn.is_none());
    assert!(!state.is_connected);
    assert_eq!(state.config.baud_rate, 115200);
    assert_eq!(state.config.port, "/dev/ttyACM0");
}

#[test]
fn reserved_kind_connects_without_handle() {
    let mut state = fresh_state(ConnectType::Pixhawk);
    let r = connect_device(String::from("COM9"), 57600, ConnectType::Stm32, &mut state);
    assert_eq!(r, Ok(()));
    assert!(state.conn.is_none());
    assert!(!state.is_connected);
    assert_eq!(state.config.port, "COM9");
    assert_eq!(state.config.baud_rate, 57600);
    assert_eq!(state.config.connect_type, ConnectType::Stm32);
}

#[test]
fn serial_connect_to_missing_port_fails_disconnected() {
    let mut state = fresh_state(ConnectType::Stm32);
    let r = connect_device(
        String::from("/dev/port-that-does-not-exist"),
        57600,
        ConnectType::Esp32,
        &mut state,
    );
    assert!(r.is_err());
    assert!(state.conn.is_none());
    assert!(!state.is_connected);
    // the previous configuration stays on record
    assert_eq!(state.config.port, "/dev/ttyACM0");
    assert_eq!(state.config.connect_type, ConnectType::Stm32);
}

#[test]
fn mavlink_connect_to_missing_device_fails_disconnected() {
    let mut state = fresh_state(ConnectType::Stm32);
    let r = connect_device(
        String::from("/dev/ttyACM0"),
        115200,
        ConnectType::Pixhawk,
        &mut state,
    );
    match r {
        Ok(()) => panic!("open of a missing device must not succeed"),
        Err(text) => assert!(text.contains("Mavlink Connect Error")),
    }
    assert!(state.conn.is_none());
    assert!(!state.is_connected);
}

#[test]
fn disconnect_is_idempotent() {
    let mut state = fresh_state(ConnectType::Stm32);
    let first = disconnect_device(&mut state);
    assert_eq!(first, Ok(()));
    assert!(state.conn.is_none());
    assert!(!state.is_connected);
    let second = disconnect_device(&mut state);
    assert_eq!(second, Ok(()));
    assert!(state.conn.is_none());
    assert!(!state.is_connected);
    assert_eq!(state.config.port, "/dev/ttyACM0");
}

#[test]
fn disconnect_after_failed_connect_still_succeeds() {
    let mut state = fresh_state(ConnectType::Stm32);
    let _ = connect_device(
        String::from("/dev/port-that-does-not-exist"),
        9600,
        ConnectType::Esp32,
        &mut state,
    );
    assert_eq!(disconnect_device(&mut state), Ok(()));
    assert!(state.conn.is_none());
}

#[test]
fn motor_test_without_connection_reports_no_active_connection() {
    let mut state = fresh_state(ConnectType::Pixhawk);
    let r = motor_test(&mut state, MotorPosition::Motor2, 10);
    assert_eq!(r, Err(String::from("No active connection found!")));
}

#[test]
fn motor_test_rejects_rate_above_hundred_without_touching_state() {
    let mut state = fresh_state(ConnectType::Pixhawk);
    let r = motor_test(&mut state, MotorPosition::Motor1, 101);
    assert_eq!(r, Err(String::from("Capacity is too large!")));
    assert!(state.conn.is_none());
    assert!(!state.is_connected);
    assert_eq!(state.config.port, "/dev/ttyACM0");
}

#[test]
fn motor_test_serial_config_without_handle_is_write_error() {
    let mut state = fresh_state(ConnectType::Esp32);
    let r = send_motor_test(&mut state, MotorPosition::Motor1, 50);
    assert_eq!(r, Err(DispatchError::WriteError));
    assert_eq!(DispatchError::WriteError.message(), "Failed to write to port");
}

#[test]
fn motor_test_method_matches_free_dispatch() {
    let motor = Motor::new(String::from("rear right"), MotorPosition::Motor4);
    let mut state = fresh_state(ConnectType::Pixhawk);
    let r = motor.test(&mut state, 25);
    assert_eq!(r, Err(DispatchError::NoActiveConnection));
}

#[test]
fn send_serial_raw_refuses_non_serial_configuration() {
    let mut state = fresh_state(ConnectType::Pixhawk);
    let r = send_serial_raw(&mut state, "motor1::1500\n");
    assert_eq!(r, Err(DispatchError::NotSerialTransport));
    assert_eq!(DispatchError::NotSerialTransport.message(), "Not implemented");
}

#[test]
fn send_serial_raw_without_handle_is_write_error() {
    let mut state = fresh_state(ConnectType::Esp32);
    let r = send_serial_raw(&mut state, "motor1::1500\n");
    assert_eq!(r, Err(DispatchError::WriteError));
}

#[test]
fn is_serial_connect_reads_the_configuration_kind() {
    assert!(is_serial_connect(&AppConfig {
        baud_rate: 9600,
        port: String::from("COM3"),
        connect_type: ConnectType::Esp32,
    }));
    assert!(!is_serial_connect(&AppConfig {
        baud_rate: 9600,
        port: String::from("COM3"),
        connect_type: ConnectType::Pixhawk,
    }));
    assert!(!is_serial_connect(&AppConfig {
        baud_rate: 9600,
        port: String::from("COM3"),
        connect_type: ConnectType::Stm32,
    }));
}

#[test]
fn connect_errors_carry_their_text() {
    let serial = ConnectError::SerialOpen(String::from("Error: device busy"));
    assert_eq!(serial.message(), "Error: device busy");
    let mav = ConnectError::MavlinkOpen(String::from("Mavlink Connect Error: no device"));
    assert_eq!(mav.message(), "Mavlink Connect Error: no device");
    assert_eq!(
        DispatchError::NoActiveConnection.message(),
        "No active connection found!"
    );
}

#[test]
fn config_clone_keeps_every_field() {
    let config = AppConfig {
        baud_rate: 57600,
        port: String::from("COM9"),
        connect_type: ConnectType::Esp32,
    };
    let copy = config.clone();
    assert_eq!(copy.baud_rate, 57600);
    assert_eq!(copy.port, "COM9");
    assert_eq!(copy.connect_type, ConnectType::Esp32);
}
