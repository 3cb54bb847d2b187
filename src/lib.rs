//! Bounded-time discovery of one multicast-DNS service instance.
//!
//! The discovery flow is a state machine: the caller performs each requested
//! action (acquire the multicast session, issue the browse, read the clock,
//! wait for an event, release the session) and feeds back what happened.
//! Every decision of the flow is made and verified here.
pub mod laws;
pub mod session;

pub use session::{
    Action, Discovery, DiscoveryError, DiscoveryResult, Input, Phase, ResolutionEvent,
    DEFAULT_TIMEOUT_MS, POLL_SLICE_MS, SERVICE_TYPE,
};
