//! Which namespaces are watched.
use vstd::prelude::*;

verus! {

/// The namespaces in which namespaced entities are watched.
///
/// `Names` may be empty: then no source is opened for namespaced kinds.
#[derive(Debug, Clone)]
pub enum NamespaceScope {
    /// Every namespace, through one cluster-wide source.
    All,
    /// The listed namespaces, one source each.
    Names(Vec<String>),
}

} // verus!
