//! Telemetry service core: the telemetry configuration and the exporter it
//! selects, the service hub's listener decisions (addresses, routes, bind
//! retries, shutdown), metric handles of the recording boundary, and the
//! command-line tool's script and tracing helpers.
pub mod json;
pub mod config;
pub mod exporter;
pub mod hub;
pub mod metrics;
pub mod cli;
pub mod script;
