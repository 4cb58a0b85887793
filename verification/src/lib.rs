//! The decision-making core of a gateway into the Windows component object
//! model (COM) and the management instrumentation service (WMI).
//!
//! The crate performs no foreign call itself. Each operation is a state
//! machine: it is handed what the platform answered and says which call comes
//! next, or how the operation ended. A driver outside this crate makes the
//! calls.

pub mod com_api;
pub mod error;
pub mod platform;
pub mod util;
pub mod wmi_api;

pub use error::{MigError, MigErrorKind, MigErrorView};
