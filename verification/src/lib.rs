//! A verified tool-invocation server core: it advertises a catalog of
//! notification tools, decodes and dispatches typed tool calls arriving over
//! a long-lived streaming session, reports domain failures as successful
//! results carrying failure text, and coordinates graceful shutdown with
//! in-flight request draining.

pub mod args;
pub mod catalog;
pub mod config;
pub mod dispatch;
pub mod models;
pub mod notification;
pub mod server;
pub mod session;
pub mod text;

pub use config::Config;
