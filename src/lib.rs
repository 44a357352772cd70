//! A library for turning an executable into a system service.
//!
//! The library holds the logic of service management: the event model, the
//! status state machine that is reported to the service manager, the
//! translation of control codes into events, the ordered event channel, and,
//! for each service manager, the plan of operations behind `create`,
//! `delete`, `start` and `stop`. Performing those operations on a host is the
//! caller's part.
//!
//! A service's main function reads events until it sees `Stop`. Stopping is
//! cooperative: a main function that never reads its events holds up the
//! stop of the service indefinitely.

pub mod channel;
pub mod cmdlet;
pub mod control;
pub mod controller;
pub mod dispatcher;
pub mod encoding;
pub mod error;
pub mod event;
pub mod host_model;
pub mod plan;
pub mod session;
pub mod status;
pub mod text;

pub use error::{Error, ErrorKind};
pub use event::ServiceEvent;
pub use session::{Session, Session_};
