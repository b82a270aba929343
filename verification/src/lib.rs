//! Window rendering support: a render-target lifecycle state machine with
//! device-loss recovery and generation-stamped device resources, plus a
//! bridge that associates window objects with native window handles and
//! routes window-system messages to them.
//!
//! Platform calls themselves (Direct2D, the window system) are performed by
//! the surrounding application; this crate holds the decision logic, the
//! state machines and the call-result checking, all verified.

pub mod bridge;
pub mod brushes;
pub mod check;
pub mod com;
pub mod device;
pub mod errors;
pub mod geom;
pub mod mapping;
pub mod mappings;
pub mod target;
pub mod window;
