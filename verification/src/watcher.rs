//! The producer side: which sources are watched, and what is published.
pub mod notification;
pub mod watcher;

pub use self::notification::{Notification, NotificationLogLevel};
pub use self::watcher::{
    planned, sources_for, Forward, ResourceWatcher, SourceScope, WatchError, WatchPlan,
    WatchSource, BROADCAST_CAPACITY,
};
