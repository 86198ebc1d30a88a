//! A single-slot shared-memory rendezvous protocol between one client and one
//! server process.
//!
//! The heart of the library is the slot: one shared state tag driven by
//! compare-and-swap, publishing a client identifier, a request cell and a
//! response cell.  This crate holds the protocol itself — the state machine,
//! the decision logic of both role loops, the adaptive spin-then-block waiting
//! policy, and an in-process model of the slot on which the session properties
//! are stated and proved.  Mapping the slot into real shared memory and the
//! process-shared lock/condition pair live with the embedding program, which
//! drives the decision functions exported here.

pub mod addr;
pub mod client;
pub mod errors;
pub mod laws;
pub mod server;
pub mod session;
pub mod slot;
pub mod state;
pub mod stream;
pub mod waiter;

pub use addr::CliArgs;
pub use addr::ConnKind;
pub use addr::SvrArgs;
pub use addr::parse_conn_kind;
pub use errors::Error;
pub use slot::Cabin;
pub use slot::CabinGuard;
pub use state::CabinState;
pub use stream::ByteConn;
pub use stream::client_conn;
pub use stream::server_conn;
