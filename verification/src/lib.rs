//! A host-telemetry agent's sensors: the catalog of what a host and its
//! containers can tell, the user's configuration laid over it, what each
//! sensor reports for what was observed, and the messages that announce a
//! sensor and tell its value.
//!
//! The library observes nothing itself. It says what has to be observed,
//! takes the observation as a plain value, and says what is published of it.
pub mod text;
pub mod split;
pub mod decimal;
pub mod numeral;
pub mod device_class;
pub mod cli;
pub mod config;
pub mod reporter;
pub mod sensor;
pub mod overrides;
pub mod docker_stats;
pub mod catalog;
pub mod mqtt_config;
pub mod unraid_stats;
