//! What the command line says.
use vstd::prelude::*;

verus! {

/// The arguments of one run.
#[derive(Debug, Clone)]
pub struct Args {
    /// The host of the message broker.
    pub host: Option<String>,
    /// The port of the message broker.
    pub port: u16,
    /// The id under which the client connects.
    pub client_id: Option<String>,
    /// The user name for the broker.
    pub username: Option<String>,
    /// The password for the broker.
    pub password: Option<String>,
    /// The path of the sensor configuration.
    pub config_file: Option<String>,
    /// The path to which the sensors' metadata are dumped.
    pub sensor_dump: Option<String>,
    /// Whether the messages are printed and not published.
    pub json_output: bool,
    /// The prefix of the topics under which sensors are announced.
    pub discovery_prefix: String,
    /// The name of the device that the sensors belong to.
    pub device_name: String,
    /// Whether the sensors are not announced.
    pub skip_discovery: bool,
}

} // verus!
