//! Core of a publish/subscribe messaging framework: a topic router that
//! compiles wildcard patterns into an immutable dispatch table shared by all
//! sessions, and a connection acceptor that turns a raw transport into a
//! running protocol session with a bounded handshake time.
//!
//! All transport, timer and handler work is asynchronous and lives outside
//! this crate; the crate holds the decisions.  Each decision point is an
//! explicit function or state machine with a contract: which handler a
//! publish goes to, when a session's router construction fails and with which
//! error, how slot readiness aggregates, and what the acceptor does on each
//! handshake, deadline, handler and dispatcher outcome.

pub mod accept;
pub mod router;
pub mod scan;
pub mod topic;

pub use accept::{MqttHandler, MqttServer, Seconds};
pub use router::{Publish, Route, Router, RouterFactory, RouterService};
pub use topic::TopicFilter;
