//! What holds of the service as a whole.
pub mod cell;
pub mod deliveries;
pub mod emergencies;
pub mod framing;
pub mod location;
pub mod messages;
pub mod records;
pub mod remote_control;
pub mod routes;
pub mod weather;
