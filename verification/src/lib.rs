//! Short Data Service of a TETRA base station.
pub mod channel;
pub mod commands;
pub mod config;
pub mod control;
pub mod delivery;
pub mod emergency;
pub mod entity;
pub mod laws;
pub mod lip;
pub mod pdu;
pub mod routing;
pub mod sap;
pub mod sds_tl;
pub mod telemetry;
pub mod text;
pub mod tick;
pub mod time;
pub mod wx;
