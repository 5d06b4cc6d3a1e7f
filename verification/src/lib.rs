//! Remote command relay: the wire protocol shared by the gateway and its
//! agents, the gateway's device and command bookkeeping, its HTTP API
//! decisions, and the agent's message handling.

pub mod protocol;
pub mod text;
pub mod auth;
pub mod tables;
pub mod ids;
pub mod gateway;
pub mod api;
pub mod agent;
pub mod laws;
