//! Notifiers: the shared protocol and the concrete output channels.
pub mod log;
pub mod notifier;
pub mod slack;

pub use self::notifier::{
    failed_emissions, passes, retain_at_least, run_step, EmitError, Loggable, Notifier,
    NotifierLogLevel, NotifierType, Received, Step,
};
