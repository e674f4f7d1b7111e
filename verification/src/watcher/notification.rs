//! A plain notification: a message with a level.
use vstd::prelude::*;

verus! {

#[derive(Debug, Clone)]
pub struct Notification {
    pub message: String,
    pub level: NotificationLogLevel,
}

impl Notification {
    pub fn level(&self) -> (level: NotificationLogLevel)
        ensures
            level == self.level,
    {
        self.level
    }

    pub fn message(&self) -> (message: &String)
        ensures
            *message == self.message,
    {
        &self.message
    }
}

#[derive(Debug, Clone, Copy, PartialEq, Eq, Structural)]
pub enum NotificationLogLevel {
    Error,
    Warn,
    Info,
}

} // verus!
