use vstd::prelude::*;

verus! {

/// One of the four fixed motor positions.
///
/// Each position carries a numeric index (used in MAVLink command frames), a
/// canonical ASCII token (`motorN`, used on the plain serial line) and an
/// alternate token (`motorNtest`, used when the serial link is a test
/// harness).
#[derive(Clone, Copy, Debug, PartialEq, Eq, Structural)]
pub enum MotorPosition {
    Motor1,
    Motor2,
    Motor3,
    Motor4,
}

/// The canonical ASCII token of a motor position.
pub open spec fn motor_token(m: MotorPosition) -> Seq<char> {
    match m {
        MotorPosition::Motor1 => "motor1"@,
        MotorPosition::Motor2 => "motor2"@,
        MotorPosition::Motor3 => "motor3"@,
        MotorPosition::Motor4 => "motor4"@,
    }
}

/// The test-harness ASCII token of a motor position.
pub open spec fn motor_test_token(m: MotorPosition) -> Seq<char> {
    match m {
        MotorPosition::Motor1 => "motor1test"@,
        MotorPosition::Motor2 => "motor2test"@,
        MotorPosition::Motor3 => "motor3test"@,
        MotorPosition::Motor4 => "motor4test"@,
    }
}

/// The token the serial encoder emits: the test-harness token in a serial
/// test context, the canonical token otherwise.
pub open spec fn resolved_token(m: MotorPosition, serial_test: bool) -> Seq<char> {
    if serial_test {
        motor_test_token(m)
    } else {
        motor_token(m)
    }
}

/// The numeric index of a motor position, 1 through 4.
pub open spec fn motor_index(m: MotorPosition) -> int {
    match m {
        MotorPosition::Motor1 => 1,
        MotorPosition::Motor2 => 2,
        MotorPosition::Motor3 => 3,
        MotorPosition::Motor4 => 4,
    }
}

impl MotorPosition {
    /// The canonical ASCII token, `motor1` through `motor4`.
    pub fn as_str(&self) -> (r: &'static str)
        ensures
            r@ == motor_token(*self),
    {
        match self {
            MotorPosition::Motor1 => "motor1",
            MotorPosition::Motor2 => "motor2",
            MotorPosition::Motor3 => "motor3",
            MotorPosition::Motor4 => "motor4",
        }
    }

    /// The numeric index used in binary command frames, 1 through 4.
    pub fn as_idx(&self) -> (r: usize)
        ensures
            r == motor_index(*self),
    {
        match self {
            MotorPosition::Motor1 => 1,
            MotorPosition::Motor2 => 2,
            MotorPosition::Motor3 => 3,
            MotorPosition::Motor4 => 4,
        }
    }

    /// The ASCII token to put on the wire: the `motorNtest` form when the
    /// link is a serial test harness, the canonical `motorN` form otherwise.
    pub fn resolve_id(&self, is_serial_connect: bool) -> (r: &'static str)
        ensures
            r@ == resolved_token(*self, is_serial_connect),
    {
        if is_serial_connect {
            match self {
                MotorPosition::Motor1 => "motor1test",
                MotorPosition::Motor2 => "motor2test",
                MotorPosition::Motor3 => "motor3test",
                MotorPosition::Motor4 => "motor4test",
            }
        } else {
            self.as_str()
        }
    }
}

/// A named motor bound to one of the four positions.
pub struct Motor {
    name: String,
    id: MotorPosition,
}

impl Motor {
    /// The display name, as seen by contracts.
    pub closed spec fn spec_name(&self) -> Seq<char> {
        self.name@
    }

    /// The bound position, as seen by contracts.
    pub closed spec fn spec_id(&self) -> MotorPosition {
        self.id
    }

    /// Binds a display name to a motor position.
    pub fn new(name: String, id: MotorPosition) -> (r: Motor)
        ensures
            r.spec_name() == name@,
            r.spec_id() == id,
    {
        Motor { name, id }
    }

    /// The display name this motor was built with.
    pub fn name(&self) -> (r: &str)
        ensures
            r@ == self.spec_name(),
    {
        self.name.as_str()
    }

    /// The canonical ASCII token of this motor's position.
    pub fn id(&self) -> (r: &str)
        ensures
            r@ == motor_token(self.spec_id()),
    {
        self.id.as_str()
    }

    /// The position this motor is bound to.
    pub fn position(&self) -> (r: MotorPosition)
        ensures
            r == self.spec_id(),
    {
        self.id
    }
}

} // verus!
