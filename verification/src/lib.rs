//! Runtime attachment bridge: the decision logic that wires a native
//! worker-thread pool to a host-managed virtual machine.
//!
//! The bridge owns three pieces of process-wide, set-once state — the host
//! VM handle, the captured class-loader reference, and the published worker
//! pool — and the per-thread attach/detach lifecycle that every worker must
//! follow before it may touch managed objects.

mod bridge;
mod error;
mod pool;

pub use bridge::Bridge;
pub use bridge::LOAD_VERSION_TOKEN;
pub use error::BridgeError;
pub use pool::count_kind;
pub use pool::fresh_worker;
pub use pool::has_started;
pub use pool::is_live;
pub use pool::Event;
pub use pool::EventKind;
pub use pool::Pool;
pub use pool::Worker;
pub use pool::WorkerState;
