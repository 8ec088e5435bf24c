//! Poll-driven middleware for request/response services.
//!
//! A *service* turns one request into one response or error under a strict
//! readiness-before-call discipline; a *future* is a computation advanced by
//! polling.  The decorators here add cross-cutting behaviour around such
//! services without touching any transport:
//!
//! - [`filter::Filter`]: a capacity-limited admission gate that also checks
//!   every request against a predicate before letting it through;
//! - [`retry::Retry`]: replays a cloned request according to a pluggable
//!   policy when an attempt's outcome warrants it;
//! - [`reconnect::Reconnect`]: defers establishing the underlying service
//!   until first use and reconnects after failures;
//! - [`discover`], [`load`], [`either`], [`option_service`] and
//!   [`service_fn`]: the service-set change feed and small uniform wrappers.
//!
//! Suspension is explicit: every asynchronous step reports
//! [`service::Async::NotReady`] instead of blocking, and each decorator's
//! internal state machine is driven by advance operations whose contracts
//! pin down every transition.

pub mod discover;
pub mod either;
pub mod filter;
pub mod load;
pub mod option_service;
pub mod reconnect;
pub mod retry;
pub mod service;
pub mod service_fn;
