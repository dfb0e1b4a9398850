//! Core logic of a two-leaf motorized gate controller: the credential key
//! store, the configuration store, the authentication audit log, the
//! decision logic of the door state machine, and the attribute-service
//! session handlers.
//!
//! Flash persistence, radio transport and timers are performed by the
//! surrounding program; this crate computes every decision and every byte
//! image that crosses those edges.

pub mod types;
pub mod gpo;
pub mod keys;
pub mod audit;
pub mod settings;
pub mod fsm;
pub mod gpi;
pub mod crypto;
pub mod session;
pub mod adv;
