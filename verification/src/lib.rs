//! A client library for the public transport APIs of the Munich transport
//! corporation (MVG): station search, departures, master data, and the
//! favourite-station bookkeeping of its command line front end.

pub mod models;
pub mod text;
pub mod station_id;
pub mod errors;
pub mod urls;
pub mod client;
pub mod favorites;
pub mod monitor;
pub mod display;
pub mod cli;
pub mod timing;
