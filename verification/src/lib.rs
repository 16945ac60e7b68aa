//! Deployment orchestration for a lab application that can run standalone,
//! as a hub for a lab network, or as a client of a remote hub.
//!
//! The functions here are verified against their contracts. What they
//! decide on (binding ports, starting services, talking to the network) is
//! performed by the program that links this library. The few calls that
//! the verifier cannot see into, to `chrono` and to the standard library,
//! stand behind items whose contracts are taken on trust; each says so
//! where it is declared.

pub mod config;
pub mod discovery;
pub mod licensing;
pub mod orchestrator;
pub mod ports;
pub mod requests;
pub mod storage;
pub mod text;
