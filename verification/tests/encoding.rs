use dronelink::decimal::u32_to_decimal;
use dronelink::dispatch::{encode_mav_frame, encode_serial_line};
use dronelink::errors::DispatchError;
use dronelink::motor::{Motor, MotorPosition};

#[test]
fn decimal_renders_small_and_large_numbers() {
    assert_eq!(u32_to_decimal(0), "0");
    assert_eq!(u32_to_decimal(7), "7");
    assert_eq!(u32_to_decimal(10), "10");
    assert_eq!(u32_to_decimal(1500), "1500");
    assert_eq!(u32_to_decimal(57600), "57600");
    assert_eq!(u32_to_decimal(115200), "115200");
    assert_eq!(u32_to_decimal(u32::MAX), "4294967295");
}

#[test]
fn serial_line_motor1_rate50() {
    let line = encode_serial_line(&MotorPosition::Motor1, 50, false).unwrap();
    assert_eq!(line, "motor1::1500\n");
}

#[test]
fn serial_line_rate_bounds() {
    let low = encode_serial_line(&MotorPosition::Motor1, 0, false).unwrap();
    assert_eq!(low, "motor1::1000\n");
    let high = encode_serial_line(&MotorPosition::Motor4, 100, false).unwrap();
    assert_eq!(high, "motor4::2000\n");
}

#[test]
fn serial_value_formula_for_every_rate() {
    for rate in 0..=100u32 {
        let line = encode_serial_line(&MotorPosition::Motor3, rate, false).unwrap();
        let expected = format!("motor3::{}\n", 1000 + rate * 10);
        assert_eq!(line, expected);
        let value = 1000 + rate * 10;
        assert!((1000..=2000).contains(&value));
    }
}

#[test]
fn serial_line_test_harness_token() {
    let line = encode_serial_line(&MotorPosition::Motor2, 10, true).unwrap();
    assert_eq!(line, "motor2test::1100\n");
}

#[test]
fn serial_line_rejects_rate_above_hundred() {
    let r = encode_serial_line(&MotorPosition::Motor1, 101, false);
    assert_eq!(r, Err(DispatchError::CapacityExceeded));
    assert_eq!(DispatchError::CapacityExceeded.message(), "Capacity is too large!");
}

#[test]
fn mav_frame_motor3_rate75() {
    let f = encode_mav_frame(&MotorPosition::Motor3, 75);
    assert_eq!(f.motor_index, 3);
    assert_eq!(f.zero_param, 0);
    assert_eq!(f.throttle_percent, 75);
    assert_eq!(f.test_kind, 2);
    assert_eq!(f.target_system, 1);
    assert_eq!(f.target_component, 1);
    assert_eq!(f.source_system, 255);
    assert_eq!(f.source_component, 0);
    assert_eq!(f.sequence, 0);
}

#[test]
fn motor_tokens_and_indices() {
    let positions = [
        (MotorPosition::Motor1, "motor1", "motor1test", 1usize),
        (MotorPosition::Motor2, "motor2", "motor2test", 2),
        (MotorPosition::Motor3, "motor3", "motor3test", 3),
        (MotorPosition::Motor4, "motor4", "motor4test", 4),
    ];
    for (pos, canonical, harness, idx) in positions {
        assert_eq!(pos.as_str(), canonical);
        assert_eq!(pos.resolve_id(false), canonical);
        assert_eq!(pos.resolve_id(true), harness);
        assert_eq!(pos.as_idx(), idx);
    }
}

#[test]
fn motor_keeps_name_and_position() {
    let motor = Motor::new(String::from("front left"), MotorPosition::Motor2);
    assert_eq!(motor.name(), "front left");
    assert_eq!(motor.id(), "motor2");
    assert_eq!(motor.position(), MotorPosition::Motor2);
}
