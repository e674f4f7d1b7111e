//! Node snapshots.
use vstd::prelude::*;
use crate::keyed::{keyed, keyed_entries};
use crate::resource::ext::ObjectMeta;

verus! {

/// What was asked of a node.
#[derive(Debug, Clone)]
pub struct NodeSpec {
    /// Whether new pods are kept off the node.
    pub unschedulable: Option<bool>,
}

/// One observed condition of a node, such as `MemoryPressure` with `False`.
#[derive(Debug, Clone)]
pub struct NodeCondition {
    pub type_: String,
    pub status: String,
}

/// One address of a node, such as `InternalIP` with `192.168.0.1`.
#[derive(Debug, Clone)]
pub struct NodeAddress {
    pub type_: String,
    pub address: String,
}

/// The observed state of a node.
#[derive(Debug, Clone)]
pub struct NodeStatus {
    pub conditions: Option<Vec<NodeCondition>>,
    pub addresses: Option<Vec<NodeAddress>>,
}

/// The current state of one node.
#[derive(Debug, Clone)]
pub struct Node {
    pub metadata: ObjectMeta,
    pub spec: Option<NodeSpec>,
    pub status: Option<NodeStatus>,
}

/// The conditions as pairs of type and status, in the order given.
pub open spec fn condition_pairs(conditions: Seq<NodeCondition>) -> Seq<(String, String)> {
    conditions.map_values(|c: NodeCondition| (c.type_, c.status))
}

/// The addresses as pairs of type and address, in the order given.
pub open spec fn address_pairs(addresses: Seq<NodeAddress>) -> Seq<(String, String)> {
    addresses.map_values(|a: NodeAddress| (a.type_, a.address))
}

impl Node {
    /// Whether the node is marked unschedulable; an absent mark counts as not.
    pub open spec fn is_unschedulable(&self) -> bool {
        match self.spec {
            Some(spec) => spec.unschedulable == Some(true),
            None => false,
        }
    }

    /// The reported conditions by type, if the node has a status with
    /// conditions: ascending by type, each type once, the later report winning.
    pub open spec fn reported_conditions(&self) -> Option<Seq<(String, String)>> {
        match self.status {
            Some(status) => match status.conditions {
                Some(conditions) => Some(keyed(condition_pairs(conditions@))),
                None => None,
            },
            None => None,
        }
    }

    /// The reported addresses by type, if the node has a status with
    /// addresses: ascending by type, each type once, the later report winning.
    pub open spec fn reported_addresses(&self) -> Option<Seq<(String, String)>> {
        match self.status {
            Some(status) => match status.addresses {
                Some(addresses) => Some(keyed(address_pairs(addresses@))),
                None => None,
            },
            None => None,
        }
    }
}

/// Helper methods for [`Node`]
pub trait NodeExt {
    /// The node's conditions by type, such as `MemoryPressure` with `False`
    fn status_conditions(&self) -> Option<Vec<(String, String)>>;

    /// The node's addresses by type, such as `Hostname` with `kubernetes`
    fn addresses(&self) -> Option<Vec<(String, String)>>;

    /// The node's name, or what stands for it
    fn name(&self) -> String;

    /// The node's labels
    fn labels(&self) -> &Vec<(String, String)>;

    /// Whether this node is unschedulable or not
    fn unschedulable(&self) -> bool;
}

fn pairs_of_conditions(conditions: &Vec<NodeCondition>) -> (pairs: Vec<(String, String)>)
    ensures
        pairs@ == condition_pairs(conditions@),
{
    let mut pairs: Vec<(String, String)> = Vec::new();
    let mut i: usize = 0;
    while i < conditions.len()
        invariant
            i <= conditions.len(),
            pairs@ == condition_pairs(conditions@.take(i as int)),
        decreases conditions.len() - i,
    {
        pairs.push((conditions[i].type_.clone(), conditions[i].status.clone()));
        assert(pairs@ =~= condition_pairs(conditions@.take(i as int + 1)));
        i += 1;
    }
    assert(conditions@.take(i as int) =~= conditions@);
    pairs
}

fn pairs_of_addresses(addresses: &Vec<NodeAddress>) -> (pairs: Vec<(String, String)>)
    ensures
        pairs@ == address_pairs(addresses@),
{
    let mut pairs: Vec<(String, String)> = Vec::new();
    let mut i: usize = 0;
    while i < addresses.len()
        invariant
            i <= addresses.len(),
            pairs@ == address_pairs(addresses@.take(i as int)),
        decreases addresses.len() - i,
    {
        pairs.push((addresses[i].type_.clone(), addresses[i].address.clone()));
        assert(pairs@ =~= address_pairs(addresses@.take(i as int + 1)));
        i += 1;
    }
    assert(addresses@.take(i as int) =~= addresses@);
    pairs
}

impl NodeExt for Node {
    fn name(&self) -> (name: String)
        ensures
            name@ == self.metadata.any_name(),
    {
        self.metadata.name_any()
    }

    fn labels(&self) -> (labels: &Vec<(String, String)>)
        ensures
            *labels == self.metadata.labels,
    {
        &self.metadata.labels
    }

    fn unschedulable(&self) -> (marked: bool)
        ensures
            marked == self.is_unschedulable(),
    {
        if let Some(spec) = &self.spec {
            return match spec.unschedulable {
                Some(marked) => marked,
                None => false,
            };
        }
        false
    }

    fn status_conditions(&self) -> (entries: Option<Vec<(String, String)>>)
        ensures
            match (entries, self.reported_conditions()) {
                (Some(found), Some(reported)) => found@ == reported,
                (None, None) => true,
                _ => false,
            },
    {
        match &self.status {
            Some(status) => match &status.conditions {
                Some(conditions) => {
                    let pairs = pairs_of_conditions(conditions);
                    Some(keyed_entries(&pairs))
                },
                None => None,
            },
            None => None,
        }
    }

    fn addresses(&self) -> (entries: Option<Vec<(String, String)>>)
        ensures
            match (entries, self.reported_addresses()) {
                (Some(found), Some(reported)) => found@ == reported,
                (None, None) => true,
                _ => false,
            },
    {
        match &self.status {
            Some(status) => match &status.addresses {
                Some(addresses) => {
                    let pairs = pairs_of_addresses(addresses);
                    Some(keyed_entries(&pairs))
                },
                None => None,
            },
            None => None,
        }
    }
}

} // verus!
