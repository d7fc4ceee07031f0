//! A bounded pool of reusable ClickHouse client handles.
//!
//! The pool creates a fixed number of clients up front, keeps the idle ones in
//! a store, and lends them out one at a time. Every loan is bound to a permit
//! of the pool's admission gate, a `tokio` semaphore sized to the pool. A loan
//! that ends puts its client back first; only then does the permit leave the
//! pool, for the caller to drop.
//!
//! The pool in this crate is owned by one caller at a time: every operation
//! takes it by `&mut` and has an exact contract over [`PoolModel`]. Waiting for
//! admission is left to the caller, who awaits a permit from
//! [`ConnectionPool::semaphore`] and hands the outcome to
//! [`ConnectionPool::acquire`].

pub mod error;
pub mod gate;
pub mod handle;
pub mod laws;
pub mod model;
pub mod pool;
pub mod protocol;

pub use error::Error;
pub use gate::MAX_PERMITS;
pub use model::PoolEvent;
pub use model::PoolModel;
pub use pool::ClientWrapper;
pub use pool::ConnectionPool;
pub use protocol::ProtocolEvent;
pub use protocol::ProtocolModel;
