//! The orchestration core of a Tor traffic anonymizer, with proofs.
//!
//! The crate decides; its host acts. Every operation is a small state machine
//! that hands out one [`host::Effect`] at a time and takes the host's
//! [`host::Reply`] back, so that the order of operations, the kill-switch rule
//! sets, the rollback of a failed start and the texts that are written are all
//! fixed here, under contracts that are proved.
//!
//! - [`engine`] starts, stops and rotates the proxy; [`engine::runs`] holds
//!   what is proved of whole operations.
//! - [`platform`] has the firewall and its three variants, [`rules`] the model
//!   of the packet filter that their laws are stated over.
//! - [`plan`] walks a fixed sequence of effects; [`bootstrap`], [`privilege`]
//!   and [`locate`] are the searches and the loop that are not fixed.
//! - [`torrc`] writes the runtime configuration, [`control`] the lines of the
//!   control channel, [`status`] reads the verification endpoint.
//! - [`installer`] and [`monitor`] decide for the command line what it asks
//!   and shows.

pub mod bootstrap;
pub mod config;
pub mod control;
pub mod engine;
pub mod error;
pub mod host;
pub mod installer;
pub mod layout;
pub mod locate;
pub mod monitor;
pub mod plan;
pub mod platform;
pub mod privilege;
pub mod rules;
pub mod status;
pub mod text;
pub mod torrc;

