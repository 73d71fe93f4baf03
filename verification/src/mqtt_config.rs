//! How the client of the message broker is set up.
use vstd::prelude::*;
use vstd::string::*;

use crate::cli::Args;
use crate::decimal::{decimal, push_decimal};

verus! {

/// The settings of the broker's client.
#[derive(Debug, Clone)]
pub struct MqttConfig {
    pub host: String,
    pub port: u16,
    pub client_id: String,
    pub username: String,
    pub password: String,
}

/// The mathematical value of a [`MqttConfig`].
pub struct MqttConfigView {
    pub host: Seq<char>,
    pub port: u16,
    pub client_id: Seq<char>,
    pub username: Seq<char>,
    pub password: Seq<char>,
}

impl View for MqttConfig {
    type V = MqttConfigView;

    open spec fn view(&self) -> MqttConfigView {
        MqttConfigView {
            host: self.host@,
            port: self.port,
            client_id: self.client_id@,
            username: self.username@,
            password: self.password@,
        }
    }
}

/// Why no settings could be made.
#[derive(Debug, Clone, Copy, PartialEq, Eq, Structural)]
pub enum MqttConfigError {
    /// No host was named, or an empty one.
    MissingHost,
}

impl MqttConfigError {
    /// The error in words.
    pub fn message(&self) -> (m: String)
        ensures
            m@ == "MQTT host is required. Set via --host, MQTT_HOST env var, or config file"@,
    {
        String::from_str("MQTT host is required. Set via --host, MQTT_HOST env var, or config file")
    }
}

/// With what a client is made.
#[derive(Debug, Clone)]
pub struct ClientOptions {
    pub client_id: String,
    pub host: String,
    pub port: u16,
    /// The user name and the password, where the client logs in.
    pub credentials: Option<(String, String)>,
    /// The seconds after which an idle connection is probed.
    pub keep_alive_secs: u64,
    /// The number of requests that may wait to be sent.
    pub capacity: usize,
}

/// The mathematical value of a [`ClientOptions`].
pub struct ClientOptionsView {
    pub client_id: Seq<char>,
    pub host: Seq<char>,
    pub port: u16,
    pub credentials: Option<(Seq<char>, Seq<char>)>,
    pub keep_alive_secs: u64,
    pub capacity: usize,
}

impl View for ClientOptions {
    type V = ClientOptionsView;

    open spec fn view(&self) -> ClientOptionsView {
        ClientOptionsView {
            client_id: self.client_id@,
            host: self.host@,
            port: self.port,
            credentials: match self.credentials {
                Some((user, password)) => Some((user@, password@)),
                None => None,
            },
            keep_alive_secs: self.keep_alive_secs,
            capacity: self.capacity,
        }
    }
}

/// The text of an optional argument, empty where it is absent.
pub open spec fn text_or_empty(o: Option<String>) -> Seq<char> {
    match o {
        Some(s) => s@,
        None => Seq::empty(),
    }
}

/// The client id of a run that names none: a fixed prefix and the number
/// of the process.
pub open spec fn default_client_id(process_id: u32) -> Seq<char> {
    "unraid-mqtt-stats-"@ + decimal(process_id as nat)
}

/// The settings that the arguments ask for.
pub open spec fn settings_of(args: Args, process_id: u32) -> MqttConfigView {
    MqttConfigView {
        host: text_or_empty(args.host),
        port: args.port,
        client_id: if text_or_empty(args.client_id).len() == 0 {
            default_client_id(process_id)
        } else {
            text_or_empty(args.client_id)
        },
        username: text_or_empty(args.username),
        password: text_or_empty(args.password),
    }
}

/// The options with which the client is made: it logs in only where both
/// a user name and a password are set.
pub open spec fn client_options_of(config: MqttConfigView) -> ClientOptionsView {
    ClientOptionsView {
        client_id: config.client_id,
        host: config.host,
        port: config.port,
        credentials: if config.username.len() > 0 && config.password.len() > 0 {
            Some((config.username, config.password))
        } else {
            None
        },
        keep_alive_secs: 5,
        capacity: 10,
    }
}

/// A copy of an optional argument, empty where it is absent.
fn or_empty(o: &Option<String>) -> (s: String)
    ensures
        s@ == text_or_empty(*o),
{
    match o {
        Some(s) => s.clone(),
        None => String::new(),
    }
}

impl MqttConfig {
    /// The settings that the arguments ask for. A run that names no host,
    /// or an empty one, is refused; one that names no client id gets one
    /// made of the number of its process.
    pub fn from_args_and_file(args: &Args, process_id: u32) -> (r: Result<MqttConfig, MqttConfigError>)
        ensures
            match r {
                Ok(config) => text_or_empty(args.host).len() > 0 && config@ == settings_of(
                    *args,
                    process_id,
                ),
                Err(e) => text_or_empty(args.host).len() == 0 && e == MqttConfigError::MissingHost,
            },
    {
        let host = or_empty(&args.host);
        if host.as_str().is_empty() {
            return Err(MqttConfigError::MissingHost);
        }
        let mut client_id = or_empty(&args.client_id);
        if client_id.as_str().is_empty() {
            client_id = String::from_str("unraid-mqtt-stats-");
            push_decimal(&mut client_id, process_id as u128);
        }
        Ok(
            MqttConfig {
                host,
                port: args.port,
                client_id,
                username: or_empty(&args.username),
                password: or_empty(&args.password),
            },
        )
    }

    /// The options with which the broker's client is made.
    pub fn create_mqtt_client(&self) -> (options: ClientOptions)
        ensures
            options@ == client_options_of(self@),
    {
        let credentials = if !self.username.as_str().is_empty()
            && !self.password.as_str().is_empty() {
            Some((self.username.clone(), self.password.clone()))
        } else {
            None
        };
        ClientOptions {
            client_id: self.client_id.clone(),
            host: self.host.clone(),
            port: self.port,
            credentials,
            keep_alive_secs: 5,
            capacity: 10,
        }
    }
}

} // verus!
