use vstd::prelude::*;

verus! {

/// The kind of transport a configuration asks for.
///
/// `Esp32` selects the line-based ASCII serial protocol, `Pixhawk` the
/// MAVLink binary protocol. `Stm32` is reserved for a future transport:
/// connecting with it succeeds without installing any handle.
#[derive(Clone, Copy, Debug, PartialEq, Eq, Structural)]
pub enum ConnectType {
    Esp32,
    Stm32,
    Pixhawk,
}

/// A connection request: which OS serial device to open, at which baud rate,
/// speaking which protocol. It is cloned into the registry when a connection
/// attempt succeeds.
pub struct AppConfig {
    pub baud_rate: u32,
    pub port: String,
    pub connect_type: ConnectType,
}

/// The mathematical content of a configuration: its baud rate, the port name
/// as a character sequence, and the transport kind.
pub open spec fn config_model(c: AppConfig) -> (u32, Seq<char>, ConnectType) {
    (c.baud_rate, c.port@, c.connect_type)
}

impl Clone for AppConfig {
    fn clone(&self) -> (r: Self)
        ensures
            config_model(r) == config_model(*self),
    {
        AppConfig {
            baud_rate: self.baud_rate,
            port: self.port.clone(),
            connect_type: self.connect_type,
        }
    }
}

} // verus!
