//! Event snapshots.
use vstd::prelude::*;
use crate::resource::ext::borrowed;

verus! {

/// A point in time: whole seconds since 1970-01-01 00:00:00 UTC, and the
/// nanoseconds past that second.
#[derive(Debug, Clone, Copy, PartialEq, Eq, Structural)]
pub struct Timestamp {
    pub secs: i64,
    pub nanos: u32,
}

/// The object an event is about.
#[derive(Debug, Clone)]
pub struct ObjectReference {
    pub kind: Option<String>,
    pub name: Option<String>,
}

/// The current state of one event.
#[derive(Debug, Clone)]
pub struct Event {
    /// The event's type, such as `Normal` or `Warning`.
    pub type_: Option<String>,
    pub reason: Option<String>,
    pub message: Option<String>,
    pub first_timestamp: Option<Timestamp>,
    pub last_timestamp: Option<Timestamp>,
    pub involved_object: ObjectReference,
    /// How many times the event has occurred.
    pub count: Option<i32>,
}

/// Helper methods for [`Event`]
pub trait EventExt {
    /// Type of this event
    fn typ(&self) -> Option<&String>;

    /// Reason for this event
    fn reason(&self) -> Option<&String>;

    /// Message for this event
    fn message(&self) -> Option<&String>;

    /// The time at which this event was first recorded
    fn first_timestamp(&self) -> Option<Timestamp>;

    /// The time at which this event was last recorded
    fn last_timestamp(&self) -> Option<Timestamp>;

    /// The name of the involved object
    fn involved_object_name(&self) -> Option<&String>;

    /// The kind of the involved object
    fn involved_object_kind(&self) -> Option<&String>;

    /// The number of times this event has occurred.
    fn count(&self) -> Option<i32>;
}

impl EventExt for Event {
    fn typ(&self) -> (typ: Option<&String>)
        ensures
            borrowed(typ) == self.type_,
    {
        self.type_.as_ref()
    }

    fn reason(&self) -> (reason: Option<&String>)
        ensures
            borrowed(reason) == self.reason,
    {
        self.reason.as_ref()
    }

    fn message(&self) -> (message: Option<&String>)
        ensures
            borrowed(message) == self.message,
    {
        self.message.as_ref()
    }

    fn first_timestamp(&self) -> (time: Option<Timestamp>)
        ensures
            time == self.first_timestamp,
    {
        self.first_timestamp
    }

    fn last_timestamp(&self) -> (time: Option<Timestamp>)
        ensures
            time == self.last_timestamp,
    {
        self.last_timestamp
    }

    fn involved_object_name(&self) -> (name: Option<&String>)
        ensures
            borrowed(name) == self.involved_object.name,
    {
        self.involved_object.name.as_ref()
    }

    fn involved_object_kind(&self) -> (kind: Option<&String>)
        ensures
            borrowed(kind) == self.involved_object.kind,
    {
        self.involved_object.kind.as_ref()
    }

    fn count(&self) -> (count: Option<i32>)
        ensures
            count == self.count,
    {
        self.count
    }
}

} // verus!
