//! Request instrumentation for HTTP handlers.
//!
//! Every request gets one trace span. The span is opened before the handler
//! runs and closed once the response is known, with the status of the
//! response recorded on it. A handler that raises a fault gets an error
//! response in place of the fault. A response that counts as a failure has
//! its payload read, and a failure event is emitted for it.
//!
//! The crate holds the decisions of such a middleware, on plain values:
//! [`exchange`] has the steps of one request, [`trace`] says what the span
//! sink is told of a request as a whole, and [`setup`] what is done when the
//! process starts. Waiting for the handler and talking to the span sink is
//! left to the caller.

pub mod context;
pub mod exchange;
pub mod fault;
pub mod outcome;
pub mod payload;
pub mod setup;
pub mod telemetry;
pub mod text;
pub mod trace;

pub use context::RequestContext;
pub use exchange::Instrumentation;
pub use outcome::Outcome;
pub use payload::AppInsightsError;
pub use setup::{AppInsights, Base, Ready, WithConnectionString};
pub use telemetry::Telemetry;
