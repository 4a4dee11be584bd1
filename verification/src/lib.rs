//! Watches a Bambu Lab printer and answers a subset of the OctoPrint API about it.

pub mod access;
pub mod clock;
pub mod config;
pub mod connection;
pub mod downloads;
pub mod fetching;
pub mod json;
pub mod listing;
pub mod octoprint_server;
pub mod paths;
pub mod plates;
pub mod printer_spy;
pub mod search;
pub mod slurper;
pub mod spying;
pub mod text;
