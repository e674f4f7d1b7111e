//! Snapshot types and their helper methods.
use vstd::prelude::*;

pub mod event;
pub mod node;
pub mod pod;

verus! {

/// The identifying part of a snapshot.
#[derive(Debug, Clone)]
pub struct ObjectMeta {
    /// The cluster-assigned name.
    pub name: Option<String>,
    /// The prefix from which a name is generated where none was given.
    pub generate_name: Option<String>,
    /// The namespace, for namespaced kinds.
    pub namespace: Option<String>,
    /// The labels, ascending by key, each key once.
    pub labels: Vec<(String, String)>,
}

/// What `text` holds, where it is the borrow of a text that is present.
pub open spec fn borrowed(text: Option<&String>) -> Option<String> {
    match text {
        Some(t) => Some(*t),
        None => None,
    }
}

impl ObjectMeta {
    /// The name, else the generated-name prefix, else the empty text.
    pub open spec fn any_name(&self) -> Seq<char> {
        match self.name {
            Some(name) => name@,
            None => match self.generate_name {
                Some(prefix) => prefix@,
                None => Seq::empty(),
            },
        }
    }

    /// Returns the name, else the generated-name prefix, else the empty text.
    pub fn name_any(&self) -> (name: String)
        ensures
            name@ == self.any_name(),
    {
        match &self.name {
            Some(name) => name.clone(),
            None => match &self.generate_name {
                Some(prefix) => prefix.clone(),
                None => String::new(),
            },
        }
    }
}

} // verus!
