//! The item query model: filters and query parameters.

use vstd::prelude::*;
use crate::json::{Json, JsonValue};
use crate::text::views;

verus! {

/// A filter tree: `_and` / `_or` groups of sub-filters, or a map from field
/// names to operator objects (`{"title": {"_eq": "x"}}`), members in the
/// order in which the JSON library yields them.
#[derive(Debug)]
pub enum Filter {
    And(Vec<Filter>),
    Or(Vec<Filter>),
    Field(Vec<(String, JsonValue)>),
}

/// Mathematical view of a filter.
pub enum FilterSpec {
    And(Seq<FilterSpec>),
    Or(Seq<FilterSpec>),
    Field(Seq<(Seq<char>, Json)>),
}

impl Filter {
    pub open spec fn view(&self) -> FilterSpec
        decreases self,
    {
        match self {
            Filter::And(v) => FilterSpec::And(Seq::new(v.len() as nat, |i: int| if 0 <= i < v.len() { v[i].view() } else { FilterSpec::And(Seq::empty()) })),
            Filter::Or(v) => FilterSpec::Or(Seq::new(v.len() as nat, |i: int| if 0 <= i < v.len() { v[i].view() } else { FilterSpec::And(Seq::empty()) })),
            Filter::Field(v) => FilterSpec::Field(Seq::new(v.len() as nat, |i: int| if 0 <= i < v.len() { (v[i].0@, v[i].1@) } else { (Seq::empty(), Json::Null) })),
        }
    }

    /// A deep copy of this filter.
    pub fn copy(&self) -> (r: Filter)
        ensures
            r.view() == self.view(),
        decreases self,
    {
        match self {
            Filter::Field(v) => {
                let mut out: Vec<(String, JsonValue)> = Vec::new();
                let mut i: usize = 0;
                while i < v.len()
                    invariant
                        i <= v@.len(),
                        out@.len() == i,
                        forall|k: int| #![trigger out@[k]] 0 <= k < i ==> out@[k].0@ == v@[k].0@ && out@[k].1@ == v@[k].1@,
                    decreases v@.len() - i,
                {
                    out.push((v[i].0.clone(), v[i].1.copy()));
                    i = i + 1;
                }
                let r = Filter::Field(out);
                assert(r.view() == self.view()) by {
                    if let (FilterSpec::Field(a), FilterSpec::Field(b)) = (r.view(), self.view()) {
                        assert forall|k: int| 0 <= k < a.len() implies a[k] == b[k] by {
                            assert(out@[k].0@ == v@[k].0@ && out@[k].1@ == v@[k].1@);
                        }
                        assert(a =~= b);
                    }
                }
                r
            },
            Filter::And(v) | Filter::Or(v) => {
                let mut out: Vec<Filter> = Vec::new();
                let mut i: usize = 0;
                while i < v.len()
                    invariant
                        i <= v@.len(),
                        out@.len() == i,
                        forall|k: int| 0 <= k < i ==> #[trigger] out@[k].view() == v@[k].view(),
                        forall|k: int| 0 <= k < v@.len() ==> decreases_to!(*self => v@[k]),
                    decreases v@.len() - i,
                {
                    out.push(v[i].copy());
                    i = i + 1;
                }
                let r = match self {
                    Filter::And(_) => Filter::And(out),
                    _ => Filter::Or(out),
                };
                assert(r.view() == self.view()) by {
                    match (r.view(), self.view()) {
                        (FilterSpec::And(a), FilterSpec::And(b)) => {
                            assert forall|k: int| 0 <= k < a.len() implies a[k] == b[k] by {
                                assert(out@[k].view() == v@[k].view());
                            }
                            assert(a =~= b);
                        },
                        (FilterSpec::Or(a), FilterSpec::Or(b)) => {
                            assert forall|k: int| 0 <= k < a.len() implies a[k] == b[k] by {
                                assert(out@[k].view() == v@[k].view());
                            }
                            assert(a =~= b);
                        },
                        _ => {},
                    }
                }
                r
            },
        }
    }
}

/// Query parameters of an item read. `deep` holds, per relational field, the
/// nested query given for it (`None` where the given value was not a valid
/// nested query); `alias` maps output names to field names.
#[derive(Debug)]
pub struct Query {
    pub fields: Option<Vec<String>>,
    pub sort: Option<Vec<String>>,
    pub filter: Option<Filter>,
    pub limit: Option<i64>,
    pub offset: Option<i64>,
    pub page: Option<i64>,
    pub search: Option<String>,
    pub group: Option<Vec<String>>,
    pub aggregate: Option<JsonValue>,
    pub alias: Option<Vec<(String, String)>>,
    pub deep: Option<Vec<(String, Option<Query>)>>,
}

/// Mathematical view of a query.
pub struct QuerySpec {
    pub fields: Option<Seq<Seq<char>>>,
    pub sort: Option<Seq<Seq<char>>>,
    pub filter: Option<FilterSpec>,
    pub limit: Option<int>,
    pub offset: Option<int>,
    pub page: Option<int>,
    pub search: Option<Seq<char>>,
    pub group: Option<Seq<Seq<char>>>,
    pub aggregate: Option<Json>,
    pub alias: Option<Seq<(Seq<char>, Seq<char>)>>,
    pub deep: Option<Seq<(Seq<char>, Option<QuerySpec>)>>,
}

/// View of an optional list of strings.
pub open spec fn opt_views(o: Option<Vec<String>>) -> Option<Seq<Seq<char>>> {
    match o {
        Some(v) => Some(views(v@)),
        None => None,
    }
}

/// View of an optional string.
pub open spec fn opt_view(o: Option<String>) -> Option<Seq<char>> {
    match o {
        Some(s) => Some(s@),
        None => None,
    }
}

/// View of a list of string pairs.
pub open spec fn pair_views(v: Seq<(String, String)>) -> Seq<(Seq<char>, Seq<char>)> {
    Seq::new(v.len(), |i: int| (v[i].0@, v[i].1@))
}

/// The query with no parameter set.
pub open spec fn empty_query() -> QuerySpec {
    QuerySpec {
        fields: None,
        sort: None,
        filter: None,
        limit: None,
        offset: None,
        page: None,
        search: None,
        group: None,
        aggregate: None,
        alias: None,
        deep: None,
    }
}

impl Query {
    pub open spec fn view(&self) -> QuerySpec
        decreases self,
    {
        QuerySpec {
            fields: opt_views(self.fields),
            sort: opt_views(self.sort),
            filter: match self.filter {
                Some(f) => Some(f.view()),
                None => None,
            },
            limit: match self.limit {
                Some(x) => Some(x as int),
                None => None,
            },
            offset: match self.offset {
                Some(x) => Some(x as int),
                None => None,
            },
            page: match self.page {
                Some(x) => Some(x as int),
                None => None,
            },
            search: opt_view(self.search),
            group: opt_views(self.group),
            aggregate: match self.aggregate {
                Some(a) => Some(a@),
                None => None,
            },
            alias: match self.alias {
                Some(a) => Some(pair_views(a@)),
                None => None,
            },
            deep: match self.deep {
                Some(d) => Some(Seq::new(d.len() as nat, |i: int| if 0 <= i < d.len() {
                    (d[i].0@, match d[i].1 {
                        Some(q) => Some(q.view()),
                        None => None,
                    })
                } else {
                    (Seq::empty(), None)
                })),
                None => None,
            },
        }
    }

    /// The query with no parameter set.
    pub fn empty() -> (r: Query)
        ensures
            r.view() == empty_query(),
    {
        Query {
            fields: None,
            sort: None,
            filter: None,
            limit: None,
            offset: None,
            page: None,
            search: None,
            group: None,
            aggregate: None,
            alias: None,
            deep: None,
        }
    }
}

/// A copy of a list of strings.
pub fn copy_strings(v: &Vec<String>) -> (r: Vec<String>)
    ensures
        views(r@) == views(v@),
{
    let mut out: Vec<String> = Vec::new();
    let mut i: usize = 0;
    while i < v.len()
        invariant
            i <= v@.len(),
            out@.len() == i,
            forall|k: int| 0 <= k < i ==> #[trigger] out@[k]@ == v@[k]@,
        decreases v@.len() - i,
    {
        out.push(v[i].clone());
        i = i + 1;
    }
    assert(views(out@) =~= views(v@));
    out
}

/// A copy of an optional list of strings.
pub fn copy_opt_strings(o: &Option<Vec<String>>) -> (r: Option<Vec<String>>)
    ensures
        opt_views(r) == opt_views(*o),
{
    match o {
        Some(v) => Some(copy_strings(v)),
        None => None,
    }
}

/// A copy of an optional string.
pub fn copy_opt_string(o: &Option<String>) -> (r: Option<String>)
    ensures
        opt_view(r) == opt_view(*o),
{
    match o {
        Some(s) => Some(s.clone()),
        None => None,
    }
}

impl Query {
    /// A deep copy of this query.
    pub fn copy(&self) -> (r: Query)
        ensures
            r.view() == self.view(),
        decreases self,
    {
        let filter = match &self.filter {
            Some(f) => Some(f.copy()),
            None => None,
        };
        let aggregate = match &self.aggregate {
            Some(a) => Some(a.copy()),
            None => None,
        };
        let alias = match &self.alias {
            Some(a) => {
                let mut out: Vec<(String, String)> = Vec::new();
                let mut i: usize = 0;
                while i < a.len()
                    invariant
                        i <= a@.len(),
                        out@.len() == i,
                        forall|k: int| #![trigger out@[k]] 0 <= k < i ==> out@[k].0@ == a@[k].0@ && out@[k].1@ == a@[k].1@,
                    decreases a@.len() - i,
                {
                    out.push((a[i].0.clone(), a[i].1.clone()));
                    i = i + 1;
                }
                assert(pair_views(out@) =~= pair_views(a@));
                Some(out)
            },
            None => None,
        };
        let deep = match &self.deep {
            Some(d) => {
                let mut out: Vec<(String, Option<Query>)> = Vec::new();
                let mut i: usize = 0;
                while i < d.len()
                    invariant
                        i <= d@.len(),
                        out@.len() == i,
                        forall|k: int| #![trigger out@[k]] 0 <= k < i ==> out@[k].0@ == d@[k].0@
                            && match (out@[k].1, d@[k].1) {
                                (Some(x), Some(y)) => x.view() == y.view(),
                                (None, None) => true,
                                _ => false,
                            },
                        forall|k: int| 0 <= k < d@.len() && d@[k].1 is Some ==> decreases_to!(*self => d@[k].1->Some_0),
                    decreases d@.len() - i,
                {
                    let q = match &d[i].1 {
                        Some(x) => Some(x.copy()),
                        None => None,
                    };
                    out.push((d[i].0.clone(), q));
                    i = i + 1;
                }
                Some(out)
            },
            None => None,
        };
        let r = Query {
            fields: copy_opt_strings(&self.fields),
            sort: copy_opt_strings(&self.sort),
            filter: filter,
            limit: self.limit,
            offset: self.offset,
            page: self.page,
            search: copy_opt_string(&self.search),
            group: copy_opt_strings(&self.group),
            aggregate: aggregate,
            alias: alias,
            deep: deep,
        };
        assert(r.view().deep == self.view().deep) by {
            if let (Some(a), Some(b)) = (r.view().deep, self.view().deep) {
                assert(a =~= b);
            }
        }
        r
    }
}

} // verus!
