//! The bounds shared by the types that configure a Raft node.

use std::fmt::Debug;
use vstd::prelude::*;

verus! {

/// What every type-configuration type is: a plain, thread-safe, totally ordered value
/// with a default.
pub trait TypeConfigBase where
    Self: Sized + Send + Sync + 'static,
    Self: Debug + Clone + Copy + Default,
    Self: Eq + PartialEq + Ord + PartialOrd,
 {

}

impl<T> TypeConfigBase for T where
    T: Sized + Send + Sync + 'static,
    T: Debug + Clone + Copy + Default,
    T: Eq + PartialEq + Ord + PartialOrd,
 {

}

/// The basic types of a Raft node: the application data and response, the node id,
/// the node information and the term.
pub trait RaftBaseConfig: TypeConfigBase {
    type D;
    type R;
    type NodeId: Copy + Ord + Debug;
    type Node;
    type Term: Copy + Ord + Debug;
}

} // verus!
