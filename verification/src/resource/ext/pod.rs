//! Pod snapshots.
use vstd::prelude::*;
use crate::resource::ext::borrowed;
use crate::resource::ext::ObjectMeta;

verus! {

/// The observed state of a pod.
#[derive(Debug, Clone)]
pub struct PodStatus {
    /// The phase the pod is in.
    pub phase: Option<String>,
    /// The pod's address inside the cluster.
    pub pod_ip: Option<String>,
}

/// The current state of one pod.
#[derive(Debug, Clone)]
pub struct Pod {
    pub metadata: ObjectMeta,
    pub status: Option<PodStatus>,
}

impl Pod {
    /// The observed phase, if the pod has a status with one.
    pub open spec fn observed_phase(&self) -> Option<String> {
        match self.status {
            Some(status) => status.phase,
            None => None,
        }
    }

    /// The pod's address, if it has a status with one.
    pub open spec fn observed_ip(&self) -> Option<String> {
        match self.status {
            Some(status) => status.pod_ip,
            None => None,
        }
    }
}

/// Helper methods for [`Pod`]
pub trait PodExt {
    /// The IP address of the pod within the cluster
    fn ip_addr(&self) -> Option<&String>;

    /// The phase the pod is currently in
    fn phase(&self) -> Option<&String>;

    /// The namespace the pod lives in
    fn namespace(&self) -> Option<String>;

    /// The pod's name, or what stands for it
    fn name(&self) -> String;

    /// The pod's labels
    fn labels(&self) -> &Vec<(String, String)>;
}

impl PodExt for Pod {
    fn name(&self) -> (name: String)
        ensures
            name@ == self.metadata.any_name(),
    {
        self.metadata.name_any()
    }

    fn labels(&self) -> (labels: &Vec<(String, String)>)
        ensures
            *labels == self.metadata.labels,
    {
        &self.metadata.labels
    }

    fn ip_addr(&self) -> (ip: Option<&String>)
        ensures
            borrowed(ip) == self.observed_ip(),
    {
        match &self.status {
            Some(status) => match &status.pod_ip {
                Some(ip) => Some(ip),
                None => None,
            },
            None => None,
        }
    }

    fn phase(&self) -> (phase: Option<&String>)
        ensures
            borrowed(phase) == self.observed_phase(),
    {
        match &self.status {
            Some(status) => match &status.phase {
                Some(phase) => Some(phase),
                None => None,
            },
            None => None,
        }
    }

    fn namespace(&self) -> (namespace: Option<String>)
        ensures
            namespace == self.metadata.namespace,
    {
        match &self.metadata.namespace {
            Some(namespace) => Some(namespace.clone()),
            None => None,
        }
    }
}

} // verus!
