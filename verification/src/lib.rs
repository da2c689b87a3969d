//! Membership lifecycle manager for a tunnel-based darknet.
//!
//! The library turns an invite code into an active, continuously
//! reconciled network tunnel and tears it down cleanly on a termination
//! signal. It holds the pure core of that lifecycle: invite parsing,
//! classification of coordination-server responses, planning of the
//! interface-controller commands, the additive peer-config model, and
//! the supervisor state machine. The surrounding process (HTTP
//! transport, timers, signal delivery, spawning the OS utilities)
//! performs the planned commands and feeds the observed events back in.

pub mod client;
pub mod errors;
pub mod invite;
pub mod lifecycle;
pub mod model;
pub mod wg;
