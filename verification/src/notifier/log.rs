//! The notifier that writes to the process log.
use vstd::prelude::*;
use vstd::string::*;
use crate::notifier::notifier::{Loggable, Notifier, NotifierLogLevel};
use crate::resource::{PackedResource, WatchedResource};

verus! {

/// Notifies through the process log: one line per snapshot seen.
#[derive(Debug, Clone)]
pub struct LogNotifier {
    pub log_level: NotifierLogLevel,
}

/// One line for the process log, with the severity to write it at.
#[derive(Debug, Clone)]
pub struct LogNotification {
    pub level: NotifierLogLevel,
    pub message: String,
}

impl Loggable for LogNotification {
    open spec fn level(&self) -> NotifierLogLevel {
        self.level
    }

    fn log_level(&self) -> (level: NotifierLogLevel) {
        self.level
    }
}

/// The line that says an entity of `kind` was seen.
pub open spec fn seen_message(kind: WatchedResource) -> Seq<char> {
    match kind {
        WatchedResource::Node => "Node seen"@,
        WatchedResource::Pod => "Pod seen"@,
        WatchedResource::Event => "Event seen"@,
    }
}

impl LogNotifier {
    /// A log notifier with the threshold `log_level`.
    pub fn new(log_level: NotifierLogLevel) -> (notifier: Self)
        ensures
            notifier.log_level == log_level,
    {
        Self { log_level }
    }
}

impl Notifier for LogNotifier {
    type Notification = LogNotification;

    open spec fn threshold(&self) -> NotifierLogLevel {
        self.log_level
    }

    /// Exactly one notification, of severity `Info`, that names the kind seen.
    open spec fn derives(&self, resource: &PackedResource, derived: Seq<LogNotification>) -> bool {
        &&& derived.len() == 1
        &&& derived[0].level == NotifierLogLevel::Info
        &&& derived[0].message@ == seen_message(resource.kind())
    }

    fn create_notifications(&self, resource: &PackedResource) -> (derived: Vec<LogNotification>) {
        let mut notifications: Vec<LogNotification> = Vec::new();
        match resource {
            PackedResource::Node(_) => notifications.push(
                LogNotification {
                    level: NotifierLogLevel::Info,
                    message: String::from_str("Node seen"),
                },
            ),
            PackedResource::Pod(_) => notifications.push(
                LogNotification {
                    level: NotifierLogLevel::Info,
                    message: String::from_str("Pod seen"),
                },
            ),
            PackedResource::Event(_) => notifications.push(
                LogNotification {
                    level: NotifierLogLevel::Info,
                    message: String::from_str("Event seen"),
                },
            ),
        }
        notifications
    }

    fn log_level(&self) -> (level: NotifierLogLevel) {
        self.log_level
    }
}

} // verus!
