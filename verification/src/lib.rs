//! GPIO access through the Linux sysfs interface, centered on the `Pin`
//! type and the interrupt-driven polling it offers: a blocking poller
//! built on an edge-triggered readiness multiplexer, a registration
//! adapter for outside event loops, and pull-based edge and value
//! streams with explicit suppression of the spurious first notification.

pub mod attr;
pub mod blink;
pub mod channel;
pub mod error;
pub mod evented;
pub mod path;
pub mod pin;
pub mod poller;
pub mod stream;
pub mod sys;

pub use attr::Direction;
pub use attr::Edge;
pub use blink::blink_my_led;
pub use blink::BlinkPlan;
pub use blink::BlinkStep;
pub use error::Error;
pub use evented::AsyncPinPoller;
pub use pin::Pin;
pub use poller::EdgeSource;
pub use poller::PinPoller;
pub use stream::PinStream;
pub use stream::PinValueStream;
pub use stream::StreamStep;
