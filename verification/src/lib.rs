//! The frontend of a vhost-user file-system device.
//!
//! The crate decides everything the frontend decides: what the guest reads in
//! the device config space, which features are negotiated, which calls the
//! host has to make and in what order, and what each outcome of a call means
//! for the device.  It makes no call itself.  An operation that needs the host
//! (connecting, activating, capturing or restoring state, mapping the DAX
//! window) is a value that names the next [`Request`](request::Request); the
//! host performs it and hands the reply back.

pub mod activate;
pub mod api;
pub mod builder;
pub mod capture;
pub mod config;
pub mod config_space;
pub mod dax;
pub mod device;
pub mod error;
pub mod handler;
pub mod opening;
pub mod outside;
pub mod persist;
pub mod plan;
pub mod queue;
pub mod request;
