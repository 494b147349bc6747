//! Decision core for a tiling-window-manager automation daemon.
//!
//! The daemon subscribes to window lifecycle events and reacts by issuing
//! layout, naming, and user-hook commands back over the manager's control
//! protocol.  Everything that decides *what* to send lives here and is
//! verified; the surrounding process (connections, subscription stream,
//! signal plumbing) only carries values in and commands out.

pub mod errors;

pub mod events;

pub mod hooks;

pub mod layout;

pub mod naming;

pub mod numfmt;

pub mod signals;
