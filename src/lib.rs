//! A status-line daemon for a window manager: it formats a snapshot of
//! system metrics into one line, lets desktop notifications preempt that
//! line for a while, and says goodbye when asked to stop.
pub mod layout;
pub mod metrics;
pub mod relay;
pub mod render;
pub mod text;

pub use metrics::{separated, status, used_memory, MetricSample};
pub use relay::{NotificationEvent, Relay};
pub use render::{Action, Event, RenderLoop, SignalKind, StopReason, CADENCE_MS};
