//! Typed queries: stateless descriptors of a component-kind tuple.
//!
//! A query owns no cached result.  It is re-evaluated against the world on
//! every call, so it reflects every entity inserted between calls; two
//! descriptors over the same kinds always yield the same sequence from the
//! same world.

use crate::world::{GroupView, KindSet, Row, World, select_rows};
use vstd::prelude::*;

verus! {

/// A stateless descriptor of the component kinds a selection asks for.
/// Constructing one is free and touches no storage.
#[derive(Clone, Copy, Debug, PartialEq, Eq, Structural)]
pub struct Query {
    pub kinds: KindSet,
}

impl Query {
    /// A descriptor over the given kinds.
    pub fn new(kinds: KindSet) -> (q: Query)
        ensures
            q.kinds == kinds,
    {
        Query { kinds }
    }

    /// Evaluates the descriptor: a fresh, finite sequence of the rows of
    /// every group carrying all requested kinds, restricted to those
    /// kinds — groups in creation order, rows in insertion order.
    pub fn iter(&self, world: &World) -> (r: Vec<Row>)
        requires
            world.wf(),
        ensures
            r@ == select_rows(world@, self.kinds),
    {
        world.select(self.kinds)
    }
}

/// The descriptor the presentation layer draws the component layout with:
/// position and circle.
pub fn get_component_objects() -> (q: Query)
    ensures
        q.kinds == (KindSet { position: true, circle: true, ..KindSet::none_spec() }),
{
    let none = KindSet::none();
    Query { kinds: KindSet { position: true, circle: true, ..none } }
}

/// The descriptor the presentation layer draws the monolithic layout with:
/// object and circle.
pub fn get_objects() -> (q: Query)
    ensures
        q.kinds == (KindSet { object: true, circle: true, ..KindSet::none_spec() }),
{
    let none = KindSet::none();
    Query { kinds: KindSet { object: true, circle: true, ..none } }
}

/// Query construction is idempotent: two descriptors over the same kinds,
/// iterated against the same world with no intervening mutation, produce
/// identical sequences.
pub proof fn lemma_query_idempotent(q1: Query, q2: Query, ws: Seq<GroupView>)
    requires
        q1.kinds == q2.kinds,
    ensures
        select_rows(ws, q1.kinds) == select_rows(ws, q2.kinds),
{
}

} // verus!
