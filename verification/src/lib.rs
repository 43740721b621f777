//! A gateway that takes SSH exec requests and binds each to an interactive
//! process in a container, chosen by the container's labels.
//!
//! This library holds the gateway's decisions, each with its contract: how
//! a request is read (`cli`), which container serves it (`docker`), how the
//! process is launched (`exec`), how the registry of channels moves through
//! a channel's life (`server`), and what goes back to the channel (`bridge`).
//! Talking to the SSH peer and to the container engine is left to the
//! program around it, which performs what the library asks for and reports
//! what came of it.
pub mod bridge;
pub mod cli;
pub mod docker;
pub mod error;
pub mod exec;
pub mod server;
pub mod text;
