//! Plans the watch sources that are merged into one stream, and decides
//! what the producer does with each item of that stream.
use vstd::prelude::*;
use crate::namespace::NamespaceScope;
use crate::resource::{PackedResource, WatchedResource};

verus! {

/// How many of the most recent snapshots the fan-out channel retains.
pub const BROADCAST_CAPACITY: usize = 256;

/// What one watch source covers.
#[derive(Debug, Clone)]
pub enum SourceScope {
    /// The whole cluster.
    Cluster,
    /// One namespace.
    Namespace(String),
}

/// One source of snapshots: a kind of entity within a scope.
#[derive(Debug, Clone)]
pub struct WatchSource {
    pub resource: WatchedResource,
    pub scope: SourceScope,
}

/// Why a watch source failed to yield a snapshot.
#[derive(Debug, Clone)]
pub struct WatchError {
    pub reason: String,
}

/// What the producer does with one item of the merged stream.
#[derive(Debug, Clone)]
pub enum Forward {
    /// Publish the snapshot to every notifier.
    Publish(PackedResource),
    /// Report the error; the stream goes on.
    Report(WatchError),
}

/// What the producer runs on: the sources whose streams are merged into
/// one, and how many snapshots the fan-out channel retains.
#[derive(Debug, Clone)]
pub struct WatchPlan {
    pub sources: Vec<WatchSource>,
    pub capacity: usize,
}

/// Watches the configured kinds within the configured namespaces.
#[derive(Debug, Clone)]
pub struct ResourceWatcher {
    pub namespace_scope: NamespaceScope,
    pub resources: Vec<WatchedResource>,
}

/// The sources opened for one kind: a single cluster-wide source for a
/// kind that is not namespaced or where every namespace is watched, else
/// one source per listed namespace, in the order listed.
pub open spec fn sources_for(resource: WatchedResource, scope: NamespaceScope) -> Seq<WatchSource> {
    match scope {
        NamespaceScope::Names(names) if resource.namespaced() => Seq::new(
            names@.len(),
            |i: int| WatchSource { resource, scope: SourceScope::Namespace(names@[i]) },
        ),
        _ => seq![WatchSource { resource, scope: SourceScope::Cluster }],
    }
}

/// The sources opened for the kinds in `resources`, kind after kind.
pub open spec fn planned(resources: Seq<WatchedResource>, scope: NamespaceScope) -> Seq<
    WatchSource,
>
    decreases resources.len(),
{
    if resources.len() == 0 {
        Seq::empty()
    } else {
        planned(resources.drop_last(), scope) + sources_for(resources.last(), scope)
    }
}

/// The number of sources planned: one for each kind that is not namespaced
/// or where every namespace is watched, else one per listed namespace. With
/// no namespace listed a namespaced kind has no source.
pub proof fn lemma_sources_for_len(resource: WatchedResource, scope: NamespaceScope)
    ensures
        sources_for(resource, scope).len() == (match scope {
            NamespaceScope::Names(names) if resource.namespaced() => names@.len(),
            _ => 1,
        }),
{
}

impl ResourceWatcher {
    pub fn new(namespace_scope: NamespaceScope, resources: Vec<WatchedResource>) -> (watcher: Self)
        ensures
            watcher.namespace_scope == namespace_scope,
            watcher.resources == resources,
    {
        Self { namespace_scope, resources }
    }

    /// Plans the sources whose streams are merged: for each watched kind,
    /// in the order configured, the sources of that kind.
    pub fn sources(&self) -> (sources: Vec<WatchSource>)
        ensures
            sources@ == planned(self.resources@, self.namespace_scope),
    {
        let mut sources: Vec<WatchSource> = Vec::new();
        let mut i: usize = 0;
        while i < self.resources.len()
            invariant
                i <= self.resources.len(),
                sources@ == planned(self.resources@.take(i as int), self.namespace_scope),
            decreases self.resources.len() - i,
        {
            let resource = self.resources[i];
            let ghost done = sources@;
            proof {
                let next = self.resources@.take(i as int + 1);
                assert(next.drop_last() =~= self.resources@.take(i as int));
                assert(next.last() == resource);
            }
            match &self.namespace_scope {
                NamespaceScope::Names(names) if resource.is_namespaced() => {
                    let mut k: usize = 0;
                    while k < names.len()
                        invariant
                            k <= names.len(),
                            sources@ == done + Seq::new(
                                k as nat,
                                |j: int|
                                    WatchSource {
                                        resource,
                                        scope: SourceScope::Namespace(names@[j]),
                                    },
                            ),
                        decreases names.len() - k,
                    {
                        sources.push(
                            WatchSource {
                                resource,
                                scope: SourceScope::Namespace(names[k].clone()),
                            },
                        );
                        k += 1;
                    }
                    assert(sources@ =~= done + sources_for(resource, self.namespace_scope));
                },
                _ => {
                    sources.push(WatchSource { resource, scope: SourceScope::Cluster });
                    assert(sources@ =~= done + sources_for(resource, self.namespace_scope));
                },
            }
            i += 1;
        }
        assert(self.resources@.take(i as int) =~= self.resources@);
        sources
    }

    /// Plans the watch: the sources of every configured kind, merged into
    /// one stream, feed a channel that retains the most recent
    /// `BROADCAST_CAPACITY` snapshots.
    pub fn watch(&self) -> (plan: WatchPlan)
        ensures
            plan.sources@ == planned(self.resources@, self.namespace_scope),
            plan.capacity == BROADCAST_CAPACITY,
    {
        WatchPlan { sources: self.sources(), capacity: BROADCAST_CAPACITY }
    }

    /// Decides what the producer does with one item of the merged stream: a
    /// snapshot is published, an error is reported and nothing else. The
    /// stream goes on either way.
    pub fn forward(item: Result<PackedResource, WatchError>) -> (action: Forward)
        ensures
            match item {
                Ok(resource) => action == Forward::Publish(resource),
                Err(error) => action == Forward::Report(error),
            },
    {
        match item {
            Ok(resource) => Forward::Publish(resource),
            Err(error) => Forward::Report(error),
        }
    }
}

} // verus!
