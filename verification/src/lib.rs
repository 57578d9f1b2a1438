//! A supervised, message-driven actor core.
//!
//! State is owned by a [`state::State`] cell, mutated exclusively through a
//! command-then-event protocol: a command is interpreted against the current
//! state by [`aggregate::Aggregate::handle`], which emits events, and only
//! [`aggregate::Aggregate::apply`] may mutate the state. A generic
//! [`actor::Actor`] builder assembles supervision configuration for any type
//! implementing [`traits::TActor`].

pub mod actor;
pub mod aggregate;
pub mod client_actor;
pub mod commands;
pub mod config;
pub mod error;
pub mod events;
pub mod message_loop;
pub mod runtime;
pub mod state;
pub mod traits;
