//! Ownership layer and request dispatch for a hypervisor control service.
//!
//! The crate never touches the hypervisor itself. The embedding program makes
//! each native call and hands its outcome over as plain values; the functions
//! here own the handles, decide what an outcome means and which call comes
//! next.
//!
//! - `handle`, `connection`, `domain`: the owners of native sessions and
//!   virtual machines, and what the native calls on them come to.
//! - `ownership`: how the owners of a session account for its native
//!   reference count.
//! - `message`, `protocol`, `service`: the three operations of the service,
//!   each request as a machine that asks for one native call at a time.
//! - `run`: what a request does from its begin to its end.
//! - `text`, `error`: C strings, and what can go wrong.

pub mod connection;
pub mod domain;
pub mod error;
pub mod handle;
pub mod message;
pub mod ownership;
pub mod protocol;
pub mod run;
pub mod service;
pub mod text;
