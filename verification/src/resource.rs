//! The watched entity kinds and the snapshot type that unifies them.
use vstd::prelude::*;
use vstd::string::*;
use crate::resource::ext::event::Event;
use crate::resource::ext::node::Node;
use crate::resource::ext::pod::Pod;

pub mod ext;

verus! {

/// Packs entity snapshots into a single type so that one stream can carry
/// every watched kind.
#[derive(Debug, Clone)]
pub enum PackedResource {
    /// A Node snapshot
    Node(Node),
    /// A Pod snapshot
    Pod(Pod),
    /// An Event snapshot
    Event(Event),
}

/// A watched entity kind
#[derive(Debug, Clone, Copy, PartialEq, Eq, Structural)]
pub enum WatchedResource {
    Node,
    Pod,
    Event,
}

impl WatchedResource {
    /// The kind's lower-case name.
    pub open spec fn name(self) -> Seq<char> {
        match self {
            WatchedResource::Node => "node"@,
            WatchedResource::Pod => "pod"@,
            WatchedResource::Event => "event"@,
        }
    }

    /// Whether entities of this kind live inside a namespace.
    pub open spec fn namespaced(self) -> bool {
        self != WatchedResource::Node
    }

    /// Renders the kind's lower-case name.
    pub fn to_string(&self) -> (text: String)
        ensures
            text@ == self.name(),
    {
        let typ = match self {
            WatchedResource::Node => "node",
            WatchedResource::Pod => "pod",
            WatchedResource::Event => "event",
        };
        String::from_str(typ)
    }

    /// Tells whether entities of this kind live inside a namespace.
    pub fn is_namespaced(&self) -> (namespaced: bool)
        ensures
            namespaced == self.namespaced(),
    {
        match self {
            WatchedResource::Node => false,
            WatchedResource::Pod => true,
            WatchedResource::Event => true,
        }
    }
}

impl PackedResource {
    /// The kind of the packed snapshot.
    pub open spec fn kind(&self) -> WatchedResource {
        match self {
            PackedResource::Node(_) => WatchedResource::Node,
            PackedResource::Pod(_) => WatchedResource::Pod,
            PackedResource::Event(_) => WatchedResource::Event,
        }
    }

    /// Tells the kind of the packed snapshot.
    pub fn watched_kind(&self) -> (kind: WatchedResource)
        ensures
            kind == self.kind(),
    {
        match self {
            PackedResource::Node(_) => WatchedResource::Node,
            PackedResource::Pod(_) => WatchedResource::Pod,
            PackedResource::Event(_) => WatchedResource::Event,
        }
    }
}

} // verus!
