//! Watches cluster entities and routes derived notifications to notifiers,
//! each with its own severity threshold.
pub mod config;
pub mod keyed;
pub mod namespace;
pub mod notifier;
pub mod resource;
pub mod text;
pub mod watcher;

pub use crate::notifier::slack::SlackNotifier;
pub use crate::watcher::ResourceWatcher;
