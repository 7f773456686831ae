//! Relations as the admin client lists them.

use vstd::prelude::*;
use crate::database::query::{copy_opt_string, opt_view};
use crate::text::str_eq;

verus! {

/// A relation's settings as the API returns them.
#[derive(Debug)]
pub struct Relation {
    pub id: Option<i64>,
    pub many_collection: String,
    pub many_field: String,
    pub one_collection: Option<String>,
    pub one_field: Option<String>,
    pub one_collection_field: Option<String>,
    pub one_allowed_collections: Option<String>,
    pub junction_field: Option<String>,
    pub sort_field: Option<String>,
    pub one_deselect_action: Option<String>,
}

/// Mathematical view of a relation.
pub struct RelationView {
    pub id: Option<i64>,
    pub many_collection: Seq<char>,
    pub many_field: Seq<char>,
    pub one_collection: Option<Seq<char>>,
    pub one_field: Option<Seq<char>>,
    pub one_collection_field: Option<Seq<char>>,
    pub one_allowed_collections: Option<Seq<char>>,
    pub junction_field: Option<Seq<char>>,
    pub sort_field: Option<Seq<char>>,
    pub one_deselect_action: Option<Seq<char>>,
}

impl Relation {
    pub open spec fn view(&self) -> RelationView {
        RelationView {
            id: self.id,
            many_collection: self.many_collection@,
            many_field: self.many_field@,
            one_collection: opt_view(self.one_collection),
            one_field: opt_view(self.one_field),
            one_collection_field: opt_view(self.one_collection_field),
            one_allowed_collections: opt_view(self.one_allowed_collections),
            junction_field: opt_view(self.junction_field),
            sort_field: opt_view(self.sort_field),
            one_deselect_action: opt_view(self.one_deselect_action),
        }
    }

    /// A copy of this relation.
    pub fn copy(&self) -> (r: Relation)
        ensures
            r.view() == self.view(),
    {
        Relation {
            id: self.id,
            many_collection: self.many_collection.clone(),
            many_field: self.many_field.clone(),
            one_collection: copy_opt_string(&self.one_collection),
            one_field: copy_opt_string(&self.one_field),
            one_collection_field: copy_opt_string(&self.one_collection_field),
            one_allowed_collections: copy_opt_string(&self.one_allowed_collections),
            junction_field: copy_opt_string(&self.junction_field),
            sort_field: copy_opt_string(&self.sort_field),
            one_deselect_action: copy_opt_string(&self.one_deselect_action),
        }
    }
}

/// Views of a list of relations.
pub open spec fn relation_views(v: Seq<Relation>) -> Seq<RelationView> {
    Seq::new(v.len(), |i: int| v[i].view())
}

/// Whether a relation involves collection `c`, on its many side or its one side.
pub open spec fn involves(r: RelationView, c: Seq<char>) -> bool {
    r.many_collection == c || r.one_collection == Some(c)
}

/// The relations that involve collection `c`, in order.
pub open spec fn relations_of(rs: Seq<RelationView>, c: Seq<char>) -> Seq<RelationView>
    decreases rs.len(),
{
    if rs.len() == 0 {
        seq![]
    } else {
        let r = relations_of(rs.drop_last(), c);
        if involves(rs.last(), c) { r.push(rs.last()) } else { r }
    }
}

/// The relations the client has loaded.
pub struct RelationsStore {
    pub relations: Vec<Relation>,
    pub loading: bool,
}

impl RelationsStore {
    /// An empty store, not loading.
    pub fn new() -> (r: RelationsStore)
        ensures
            r.relations@.len() == 0,
            !r.loading,
    {
        RelationsStore { relations: Vec::new(), loading: false }
    }

    /// The relations that involve `collection`, on either side.
    pub fn for_collection(&self, collection: &str) -> (r: Vec<Relation>)
        ensures
            relation_views(r@) == relations_of(relation_views(self.relations@), collection@),
    {
        let ghost rv = relation_views(self.relations@);
        let mut r: Vec<Relation> = Vec::new();
        let mut i: usize = 0;
        assert(rv.take(0) =~= Seq::<RelationView>::empty());
        assert(relation_views(r@) =~= Seq::<RelationView>::empty());
        while i < self.relations.len()
            invariant
                rv == relation_views(self.relations@),
                i <= self.relations@.len(),
                relation_views(r@) == relations_of(rv.take(i as int), collection@),
            decreases self.relations@.len() - i,
        {
            proof {
                assert(rv.take(i as int + 1).drop_last() =~= rv.take(i as int));
                assert(rv.take(i as int + 1).last() == self.relations@[i as int].view());
            }
            let x = &self.relations[i];
            let one = match &x.one_collection {
                Some(o) => str_eq(o.as_str(), collection),
                None => false,
            };
            if str_eq(x.many_collection.as_str(), collection) || one {
                let k = x.copy();
                let ghost before = r@;
                r.push(k);
                assert(relation_views(r@) =~= relation_views(before).push(k.view()));
            }
            i = i + 1;
        }
        assert(rv.take(self.relations@.len() as int) =~= rv);
        r
    }
}

} // verus!
