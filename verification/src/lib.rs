//! An atomic batching coordinator.
//!
//! A [`Batcher`] collapses many concurrent requests into a single in-flight
//! run: the first value appended while idle launches immediately as a
//! singleton batch, and everything appended while that run is in flight is
//! coalesced into exactly one follow-up batch, launched when the current run
//! reports completion.
//!
//! The batcher itself never executes the run operation or the completion
//! callbacks: its methods return actions ([`AppendAction`], [`DoneOutcome`])
//! that tell the embedding program what to do next. This keeps the state
//! machine — the running flag, the pending buffers, and the callback
//! rotation — fully verified, while the caller remains free to execute runs
//! synchronously, on an event loop, or as asynchronous tasks.

pub mod batcher;
pub mod laws;

pub use batcher::AppendAction;
pub use batcher::Batcher;
pub use batcher::BatcherView;
pub use batcher::DoneAction;
pub use batcher::DoneOutcome;
pub use batcher::ProtocolError;
