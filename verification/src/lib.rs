//! A minimal diagnostic HTTP service, modelled and verified.
//!
//! The service answers two routes: a liveness greeting at `/` and a dump of
//! an external diagnostic command's standard output at `/dmesg`. This crate
//! holds the verified decision logic: routing by exact path, building each
//! response, and mapping the diagnostic command's outcome to a response and
//! an optional warning. Listening on the network, spawning the command and
//! writing log lines are left to the surrounding program.

pub mod front_end;
pub mod response;
