use std::sync::Arc;
use vstd::prelude::*;

verus! {

/// A list of nodes of the syntax tree.
pub struct List<U>(pub Vec<U>);

impl<U> List<U> {
    /// The list holding `value`.
    pub fn new(value: Vec<U>) -> (list: List<U>)
        ensures
            list.0@ == value@,
    {
        List(value)
    }
}

/// A node of the syntax tree, held behind a reference-counted pointer.
pub struct Shared<U>(pub Arc<U>);

/// The node that `shared` holds.
pub open spec fn node_of<U>(shared: Shared<U>) -> U {
    *shared.0
}

impl<U> Shared<U> {
    /// The node `value`, shared.
    pub fn new(value: U) -> (shared: Shared<U>)
        ensures
            *shared.0 == value,
    {
        Shared(Arc::new(value))
    }

    /// Whether `this` and `other` are the very same node (one allocation),
    /// not merely equal ones. The very same node holds the same value;
    /// equal values may still stand in two allocations, so `false` says
    /// nothing of the values.
    pub fn ptr_eq(this: &Self, other: &Self) -> (same: bool)
        ensures
            same ==> *this == *other,
    {
        same_allocation(&this.0, &other.0)
    }
}

/// A shared node is cloned by sharing it again: the clone holds the very
/// same node.
impl<U> Clone for Shared<U> {
    fn clone(&self) -> (shared: Shared<U>)
        ensures
            shared == *self,
    {
        Shared(share(&self.0))
    }
}

/// `Arc::clone`: another pointer to the same allocation, so to the same
/// value.
#[verifier::external_body]
fn share<U>(this: &Arc<U>) -> (shared: Arc<U>)
    ensures
        shared == *this,
{
    Arc::clone(this)
}

/// `Arc::ptr_eq`: whether two pointers point to the same allocation. Each
/// `Arc` allocation holds its reference counts beside the value, so two live
/// allocations never share an address: the same allocation is one value.
/// When the result is `false`, nothing is stated: equal values may stand in
/// two allocations.
#[verifier::external_body]
fn same_allocation<U>(this: &Arc<U>, other: &Arc<U>) -> (same: bool)
    ensures
        same ==> *this == *other,
{
    Arc::ptr_eq(this, other)
}

/// Builds the nodes of syntax trees: shared nodes and lists.
pub trait Context {
    /// The node `value`, shared.
    fn shared<U>(&self, value: U) -> (shared: Shared<U>)
        ensures
            *shared.0 == value,
    ;

    /// An empty list.
    fn list<U>(&self) -> (list: List<U>)
        ensures
            list.0@.len() == 0,
    ;

    /// The list of `items`, in order.
    fn list_from_iter<U>(&self, items: Vec<U>) -> (list: List<U>)
        ensures
            list.0@ == items@,
    ;
}

/// Builds the nodes of syntax trees whose text is owned `String`s, so that
/// trees can cross threads.
pub struct MultiThreadedContext;

impl MultiThreadedContext {
    pub fn new() -> (context: MultiThreadedContext) {
        MultiThreadedContext
    }
}

impl Context for MultiThreadedContext {
    fn shared<U>(&self, value: U) -> (shared: Shared<U>) {
        Shared::new(value)
    }

    fn list<U>(&self) -> (list: List<U>) {
        List(Vec::new())
    }

    fn list_from_iter<U>(&self, items: Vec<U>) -> (list: List<U>) {
        List(items)
    }
}

/// Builds the nodes of syntax trees whose text is kept in owned strings
/// (the small-string representation is not kept apart).
pub struct SmolStrContext;

impl SmolStrContext {
    pub fn new() -> (context: SmolStrContext) {
        SmolStrContext
    }
}

impl Context for SmolStrContext {
    fn shared<U>(&self, value: U) -> (shared: Shared<U>) {
        Shared::new(value)
    }

    fn list<U>(&self) -> (list: List<U>) {
        List(Vec::new())
    }

    fn list_from_iter<U>(&self, items: Vec<U>) -> (list: List<U>) {
        List(items)
    }
}

} // verus!
