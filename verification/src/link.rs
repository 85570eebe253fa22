use vstd::prelude::*;

use crate::config::{config_model, AppConfig, ConnectType};
use crate::decimal::{decimal_chars, u32_to_decimal};
use crate::errors::ConnectError;

verus! {

/// How long the OS is given to complete serial I/O before an open or a write
/// times out, in milliseconds.
pub const SERIAL_IO_TIMEOUT_MS: u64 = 1000;

/// An open ASCII-serial byte stream bound to one OS port. The inner value is
/// a `serialport` trait object, which the verifier cannot declare, so the
/// whole handle is opaque; everything known about it is said by the trusted
/// functions below.
#[verifier::external_body]
pub struct SerialPortHandle {
    pub(crate) port: Box<dyn serialport::SerialPort>,
}

/// An open bidirectional MAVLink session. The inner value is the mavlink
/// crate's connection type, whose `Message` trait bound the verifier cannot
/// declare, so the whole handle is opaque; everything known about it is said
/// by the trusted functions below.
#[verifier::external_body]
pub struct MavSessionHandle {
    pub(crate) conn: mavlink::Connection<mavlink::dialects::common::MavMessage>,
}

/// The transport handle: exactly one live connection, either the ASCII
/// serial line or a MAVLink session. A handle owns its OS resource; dropping
/// the handle releases it.
pub enum DroneLink {
    Pixhawk(MavSessionHandle),
    ESP32(SerialPortHandle),
}

/// The configuration kind a live handle answers to.
pub open spec fn link_kind(l: DroneLink) -> ConnectType {
    match l {
        DroneLink::Pixhawk(_) => ConnectType::Pixhawk,
        DroneLink::ESP32(_) => ConnectType::Esp32,
    }
}

/// The link registry: at most one live transport handle, the last-applied
/// configuration, and the connected flag. One value of this type stands for
/// the whole process-wide registry; callers that share it across threads must
/// guard every operation on it by one mutual-exclusion lock held for the whole
/// operation, so that each transition below is one critical section.
pub struct AppState {
    pub conn: Option<DroneLink>,
    pub config: AppConfig,
    pub is_connected: bool,
}

impl AppState {
    /// The registry invariant: whenever the connected flag is set, a handle
    /// is installed and its variant matches the configuration's kind.
    pub open spec fn wf(&self) -> bool {
        self.is_connected ==> (self.conn matches Some(l) && link_kind(l)
            == self.config.connect_type)
    }

    /// A fresh registry: disconnected, no handle, the given configuration on
    /// record.
    pub fn new(config: AppConfig) -> (r: AppState)
        ensures
            r.conn is None,
            !r.is_connected,
            config_model(r.config) == config_model(config),
            r.wf(),
    {
        AppState { conn: None, config, is_connected: false }
    }
}

/// Relies on `serialport::new(port, baud).timeout(..).open()`: asks the OS to
/// open the named serial device at the given baud rate with a bounded I/O
/// timeout. Whether this succeeds depends on the machine, so nothing is
/// promised of the outcome; a failure carries the OS error's text.
#[verifier::external_body]
fn serial_open(port: &str, baud: u32, timeout_ms: u64) -> (r: Result<SerialPortHandle, String>) {
    let builder = serialport::new(port, baud).timeout(
        std::time::Duration::from_millis(timeout_ms),
    );
    match builder.open() {
        Ok(p) => Ok(SerialPortHandle { port: p }),
        Err(e) => Err(format!("Error: {:?}", e)),
    }
}

/// Relies on `SerialPort::write_data_terminal_ready(false)`: deasserts the
/// DTR control line, so an attached MCU bootloader is not spuriously reset.
/// A failure to change the line is ignored; the connection stays usable.
#[verifier::external_body]
fn serial_deassert_dtr(h: &mut SerialPortHandle) {
    let _ = h.port.write_data_terminal_ready(false);
}

/// Relies on `SerialPort::write_request_to_send(false)`: deasserts the RTS
/// control line, for the same reason as DTR; a failure is ignored.
#[verifier::external_body]
fn serial_deassert_rts(h: &mut SerialPortHandle) {
    let _ = h.port.write_request_to_send(false);
}

/// Relies on `mavlink::connect`: parses the address string and opens a
/// blocking MAVLink session over it. Whether this succeeds depends on the
/// machine, so nothing is promised of the outcome; a failure carries the
/// library error's text.
#[verifier::external_body]
fn mav_open(address: &str) -> (r: Result<MavSessionHandle, String>) {
    match mavlink::connect::<mavlink::dialects::common::MavMessage>(address) {
        Ok(c) => Ok(MavSessionHandle { conn: c }),
        Err(e) => Err(format!("Mavlink Connect Error: {:?}", e)),
    }
}

/// The MAVLink connection address for a serial port and baud rate.
pub open spec fn mav_address_model(port: Seq<char>, baud: u32) -> Seq<char> {
    "serial:"@ + port + ":"@ + decimal_chars(baud as int)
}

/// Builds the `serial:<port>:<baud>` connection address.
fn mav_address(port: &str, baud: u32) -> (s: String)
    ensures
        s@ == mav_address_model(port@, baud),
{
    let mut s = String::from_str("serial:");
    s.append(port);
    s.append(":");
    let b = u32_to_decimal(baud);
    s.append(b.as_str());
    proof {
        assert(s@ =~= mav_address_model(port@, baud));
    }
    s
}

/// How one `init_app` call may take the registry from `pre` to `post` when
/// asked to open `cfg`; `ok` says whether the call returned success. On
/// success the configuration is on record and the handle matches its kind —
/// present for the serial and MAVLink kinds, absent for the reserved kind,
/// with the connected flag reading accordingly. On failure the registry is
/// left fully disconnected with its previous configuration.
pub open spec fn open_transition(pre: AppState, post: AppState, cfg: AppConfig, ok: bool) -> bool {
    &&& post.wf()
    &&& if ok {
        &&& config_model(post.config) == config_model(cfg)
        &&& match cfg.connect_type {
            ConnectType::Esp32 => (post.conn matches Some(l) && l is ESP32) && post.is_connected,
            ConnectType::Stm32 => post.conn is None && !post.is_connected,
            ConnectType::Pixhawk => (post.conn matches Some(l) && l is Pixhawk)
                && post.is_connected,
        }
    } else {
        &&& post.conn is None
        &&& !post.is_connected
        &&& config_model(post.config) == config_model(pre.config)
    }
}

impl AppState {
    /// The connection manager's open path: tears down any prior handle, opens
    /// the transport the configuration asks for, and publishes the result.
    ///
    /// The serial kind opens the named port, deasserts DTR and RTS, and
    /// installs the handle; the reserved kind succeeds with no handle; the
    /// MAVLink kind opens a session on `serial:<port>:<baud>`. Failures are
    /// surfaced, never retried. After a teardown the OS may need a moment to
    /// release the port; the surrounding shell waits briefly before calling
    /// here again.
    pub fn init_app(&mut self, config: &AppConfig) -> (r: Result<(), ConnectError>)
        ensures
            open_transition(*old(self), *final(self), *config, r is Ok),
            config.connect_type is Stm32 ==> r is Ok,
            r matches Err(e) ==> match e {
                ConnectError::SerialOpen(_) => config.connect_type is Esp32,
                ConnectError::MavlinkOpen(_) => config.connect_type is Pixhawk,
            },
    {
        self.conn = None;
        self.is_connected = false;
        match config.connect_type {
            ConnectType::Esp32 => {
                match serial_open(config.port.as_str(), config.baud_rate, SERIAL_IO_TIMEOUT_MS) {
                    Ok(h) => {
                        let mut h = h;
                        serial_deassert_dtr(&mut h);
                        serial_deassert_rts(&mut h);
                        self.conn = Some(DroneLink::ESP32(h));
                        self.is_connected = true;
                        self.config = config.clone();
                        Ok(())
                    },
                    Err(e) => Err(ConnectError::SerialOpen(e)),
                }
            },
            ConnectType::Stm32 => {
                self.config = config.clone();
                Ok(())
            },
            ConnectType::Pixhawk => {
                let address = mav_address(config.port.as_str(), config.baud_rate);
                match mav_open(address.as_str()) {
                    Ok(h) => {
                        self.conn = Some(DroneLink::Pixhawk(h));
                        self.is_connected = true;
                        self.config = config.clone();
                        Ok(())
                    },
                    Err(e) => Err(ConnectError::MavlinkOpen(e)),
                }
            },
        }
    }
}

/// How a close takes the registry from `pre` to `post`: the handle dropped,
/// the connected flag cleared, the last-applied configuration kept.
pub open spec fn close_transition(pre: AppState, post: AppState) -> bool {
    &&& post.conn is None
    &&& !post.is_connected
    &&& config_model(post.config) == config_model(pre.config)
    &&& post.wf()
}

/// The connection manager's close path: unconditionally drops the active
/// transport handle, releasing its OS resource, and clears the connected
/// flag. Closing an already-disconnected registry is a no-op success.
pub fn clear_connect_device(state: &mut AppState) -> (r: Result<(), String>)
    ensures
        r is Ok,
        close_transition(*old(state), *final(state)),
{
    state.conn = None;
    state.is_connected = false;
    Ok(())
}

/// Closing is idempotent: after two closes in a row the handle is absent both
/// times, neither call can fail, and the configuration on record is still the
/// one from before the first close.
pub proof fn lemma_close_idempotent(s0: AppState, s1: AppState, s2: AppState)
    requires
        close_transition(s0, s1),
        close_transition(s1, s2),
    ensures
        s1.conn is None && s2.conn is None,
        !s1.is_connected && !s2.is_connected,
        config_model(s2.config) == config_model(s0.config),
{
}

/// Transition atomicity: each open sees the whole registry exclusively, so
/// when two attempts with configurations `a` and `b` race, the registry ends
/// as the single call that ran last leaves it — matching that call's
/// configuration exactly, the installed handle's kind agreeing with the
/// stored configuration's kind — and never as a hybrid of the two.
pub proof fn lemma_open_no_hybrid(
    pre: AppState,
    post: AppState,
    a: AppConfig,
    b: AppConfig,
    last_was_a: bool,
    ok: bool,
)
    requires
        if last_was_a {
            open_transition(pre, post, a, ok)
        } else {
            open_transition(pre, post, b, ok)
        },
    ensures
        post.wf(),
        ok ==> config_model(post.config) == config_model(if last_was_a { a } else { b }),
        post.is_connected ==> (post.conn matches Some(l) && link_kind(l)
            == post.config.connect_type),
{
}

/// After a successful open the connected flag reads true exactly when the
/// configuration's kind installs a handle: for the MAVLink kind and for the
/// serial kind; for the reserved kind it stays false.
pub proof fn lemma_open_connected_iff(pre: AppState, post: AppState, cfg: AppConfig)
    requires
        open_transition(pre, post, cfg, true),
    ensures
        post.is_connected <==> (cfg.connect_type is Pixhawk || cfg.connect_type is Esp32),
{
}

} // verus!
