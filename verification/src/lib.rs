//! Decision logic of a worker that consumes button replies from a message
//! queue, resolves their routing data and reconciles the conversation state
//! held by a CRM.
//!
//! Everything here computes on plain values. Each component that has to wait
//! for the outside world is a transition function: it is handed what happened
//! and answers with what to do next.

pub mod broker;
pub mod config;
pub mod consumer;
pub mod conversation;
pub mod crm;
pub mod gateway;
pub mod http;
pub mod json;
pub mod process;
pub mod store;
pub mod text;
pub mod timeline;
pub mod webhook;
