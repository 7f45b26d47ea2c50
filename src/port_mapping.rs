//! The port mapping of an instantiation: which signal each port is bound to.

use vstd::prelude::*;

verus! {

/// A node of the syntax tree, by its number.
#[derive(Clone, Copy, PartialEq, Eq, Structural, Debug, Hash)]
pub struct NodeId(pub usize);

/// A node together with the parameter environment it is read in.
#[derive(Clone, Copy, PartialEq, Eq, Structural, Debug, Hash)]
pub struct NodeEnvId {
    pub node: NodeId,
    pub env: usize,
}

impl NodeEnvId {
    /// The node.
    pub fn id(self) -> (r: NodeId)
        ensures
            r == self.node,
    {
        self.node
    }
}

/// Pairs of a port, by the node that declares it, and the signal assigned to
/// it, in the order of the instantiation.
#[derive(Clone, Debug)]
pub struct PortMapping(pub Vec<(NodeId, NodeEnvId)>);

impl PortMapping {
    /// The signal assigned to the port declared by `node_id`: that of the first
    /// pair for that port.
    pub fn find(&self, node_id: NodeId) -> (r: Option<NodeEnvId>)
        ensures
            match r {
                Some(sig) => exists|i: int|
                    0 <= i < self.0@.len() && self.0@[i].0 == node_id && self.0@[i].1 == sig
                        && forall|j: int| 0 <= j < i ==> self.0@[j].0 != node_id,
                None => forall|i: int| 0 <= i < self.0@.len() ==> self.0@[i].0 != node_id,
            },
    {
        let mut i: usize = 0;
        while i < self.0.len()
            invariant
                i <= self.0@.len(),
                forall|j: int| 0 <= j < i ==> self.0@[j].0 != node_id,
            decreases self.0@.len() - i,
        {
            if self.0[i].0 == node_id {
                return Some(self.0[i].1);
            }
            i = i + 1;
        }
        None
    }

    /// The port that the signal of node `node_id` is assigned to: that of the
    /// first pair for that signal.
    pub fn reverse_find(&self, node_id: NodeId) -> (r: Option<NodeId>)
        ensures
            match r {
                Some(port) => exists|i: int|
                    0 <= i < self.0@.len() && self.0@[i].1.node == node_id && self.0@[i].0 == port
                        && forall|j: int| 0 <= j < i ==> self.0@[j].1.node != node_id,
                None => forall|i: int| 0 <= i < self.0@.len() ==> self.0@[i].1.node != node_id,
            },
    {
        let mut i: usize = 0;
        while i < self.0.len()
            invariant
                i <= self.0@.len(),
                forall|j: int| 0 <= j < i ==> self.0@[j].1.node != node_id,
            decreases self.0@.len() - i,
        {
            if self.0[i].1.id() == node_id {
                return Some(self.0[i].0);
            }
            i = i + 1;
        }
        None
    }
}

} // verus!
