//! The query AST: what a read selects, with relational fields resolved
//! against the schema.

use vstd::prelude::*;
use vstd::string::*;
use crate::text::{chars_of, find_char, first_index, lemma_first_index, lemma_trim_len, str_eq, string_of, sub_chars, trim, trim_str, views};
use crate::search::{first_where, lemma_first_where_found, lemma_first_where_none, lemma_first_where_props};
use super::query::{copy_opt_string, copy_opt_strings, empty_query, opt_view, opt_views, Query, QuerySpec};

verus! {

/// A field of a collection, as far as field selection reads it.
#[derive(Debug, Clone)]
pub struct FieldOverview {
    pub field: String,
    pub alias: bool,
}

/// A collection of the schema: its name, primary key and fields in order.
#[derive(Debug)]
pub struct CollectionOverview {
    pub collection: String,
    pub primary: String,
    pub fields: Vec<FieldOverview>,
}

/// Relation metadata kept by the CMS.
#[derive(Debug)]
pub struct RelationMeta {
    pub many_field: String,
    pub one_collection: Option<String>,
    pub one_field: Option<String>,
    pub one_collection_field: Option<String>,
    pub one_allowed_collections: Option<Vec<String>>,
}

/// A relation: `collection.field` points to `related_collection`.
#[derive(Debug)]
pub struct Relation {
    pub collection: String,
    pub field: String,
    pub related_collection: Option<String>,
    pub meta: Option<RelationMeta>,
}

/// The schema: collections (looked up by name, first match) and relations.
#[derive(Debug)]
pub struct SchemaOverview {
    pub collections: Vec<CollectionOverview>,
    pub relations: Vec<Relation>,
}

/// View of a collection: name, primary key, and (field name, is alias).
pub struct CollSpec {
    pub collection: Seq<char>,
    pub primary: Seq<char>,
    pub fields: Seq<(Seq<char>, bool)>,
}

/// View of relation metadata.
pub struct MetaSpec {
    pub many_field: Seq<char>,
    pub one_collection: Option<Seq<char>>,
    pub one_field: Option<Seq<char>>,
    pub one_collection_field: Option<Seq<char>>,
    pub one_allowed_collections: Option<Seq<Seq<char>>>,
}

/// View of a relation.
pub struct RelSpec {
    pub collection: Seq<char>,
    pub field: Seq<char>,
    pub related_collection: Option<Seq<char>>,
    pub meta: Option<MetaSpec>,
}

/// View of a schema.
pub struct SchemaSpec {
    pub collections: Seq<CollSpec>,
    pub relations: Seq<RelSpec>,
}

impl CollectionOverview {
    pub open spec fn view(&self) -> CollSpec {
        CollSpec {
            collection: self.collection@,
            primary: self.primary@,
            fields: Seq::new(self.fields@.len(), |i: int| (self.fields@[i].field@, self.fields@[i].alias)),
        }
    }
}

impl RelationMeta {
    pub open spec fn view(&self) -> MetaSpec {
        MetaSpec {
            many_field: self.many_field@,
            one_collection: opt_view(self.one_collection),
            one_field: opt_view(self.one_field),
            one_collection_field: opt_view(self.one_collection_field),
            one_allowed_collections: opt_views(self.one_allowed_collections),
        }
    }
}

impl Relation {
    pub open spec fn view(&self) -> RelSpec {
        RelSpec {
            collection: self.collection@,
            field: self.field@,
            related_collection: opt_view(self.related_collection),
            meta: match self.meta {
                Some(m) => Some(m.view()),
                None => None,
            },
        }
    }
}

impl SchemaOverview {
    pub open spec fn view(&self) -> SchemaSpec {
        SchemaSpec {
            collections: Seq::new(self.collections@.len(), |i: int| self.collections@[i].view()),
            relations: Seq::new(self.relations@.len(), |i: int| self.relations@[i].view()),
        }
    }
}

/// How a relational node relates to its parent.
#[derive(Debug, Clone, Copy, PartialEq, Eq, Structural)]
pub enum RelationType {
    ManyToOne,
    OneToMany,
    AnyToOne,
}

/// A plain field, with the name it is returned under when aliased.
#[derive(Debug)]
pub struct FieldNode {
    pub name: String,
    pub alias: Option<String>,
}

/// An aggregate function applied to a field (`count(comments)`).
#[derive(Debug)]
pub struct FunctionFieldNode {
    pub name: String,
    pub function: String,
    pub alias: Option<String>,
}

/// A relational field and what is selected through it.
#[derive(Debug)]
pub struct RelationalNode {
    pub name: String,
    pub field_key: String,
    pub parent_key: String,
    pub relation_type: RelationType,
    pub children: Vec<ChildNode>,
    pub query: Query,
}

/// The root of a read: the collection, what is selected, and the query.
#[derive(Debug)]
pub struct RootNode {
    pub name: String,
    pub children: Vec<ChildNode>,
    pub query: Query,
}

/// A node of the AST.
#[derive(Debug)]
pub enum AstNode {
    Root(RootNode),
    M2O(RelationalNode),
    O2M(RelationalNode),
    A2O(RelationalNode),
}

/// A selected child of a node.
#[derive(Debug)]
pub enum ChildNode {
    Field(FieldNode),
    FunctionField(FunctionFieldNode),
    Nested(Box<AstNode>),
}

/// View of a relational node.
pub struct RelNodeSpec {
    pub name: Seq<char>,
    pub field_key: Seq<char>,
    pub parent_key: Seq<char>,
    pub relation_type: RelationType,
    pub children: Seq<ChildSpec>,
    pub query: QuerySpec,
}

/// View of an AST node.
pub enum AstSpec {
    Root(Seq<char>, Seq<ChildSpec>, QuerySpec),
    M2O(RelNodeSpec),
    O2M(RelNodeSpec),
    A2O(RelNodeSpec),
}

/// View of a child node.
pub enum ChildSpec {
    Field(Seq<char>, Option<Seq<char>>),
    FunctionField(Seq<char>, Seq<char>, Option<Seq<char>>),
    Nested(Box<AstSpec>),
}

impl RelationalNode {
    pub open spec fn view(&self) -> RelNodeSpec
        decreases self,
    {
        RelNodeSpec {
            name: self.name@,
            field_key: self.field_key@,
            parent_key: self.parent_key@,
            relation_type: self.relation_type,
            children: Seq::new(self.children.len() as nat, |i: int| if 0 <= i < self.children.len() { self.children[i].view() } else { ChildSpec::Field(Seq::empty(), None) }),
            query: self.query.view(),
        }
    }
}

impl AstNode {
    pub open spec fn view(&self) -> AstSpec
        decreases self,
    {
        match self {
            AstNode::Root(r) => AstSpec::Root(
                r.name@,
                Seq::new(r.children.len() as nat, |i: int| if 0 <= i < r.children.len() { r.children[i].view() } else { ChildSpec::Field(Seq::empty(), None) }),
                r.query.view(),
            ),
            AstNode::M2O(r) => AstSpec::M2O(r.view()),
            AstNode::O2M(r) => AstSpec::O2M(r.view()),
            AstNode::A2O(r) => AstSpec::A2O(r.view()),
        }
    }
}

impl ChildNode {
    pub open spec fn view(&self) -> ChildSpec
        decreases self,
    {
        match self {
            ChildNode::Field(f) => ChildSpec::Field(f.name@, opt_view(f.alias)),
            ChildNode::FunctionField(f) => ChildSpec::FunctionField(f.name@, f.function@, opt_view(f.alias)),
            ChildNode::Nested(n) => ChildSpec::Nested(Box::new((**n).view())),
        }
    }
}

/// Views of a list of children.
pub open spec fn child_views(v: Seq<ChildNode>) -> Seq<ChildSpec> {
    Seq::new(v.len(), |i: int| v[i].view())
}

/// Errors of building an AST.
#[derive(Debug, Clone)]
pub enum AstBuildError {
    CollectionNotFound(String),
    FieldNotFound(String, String),
    RelationNotFound(String, String),
}

/// View of an AST build error.
pub enum AstErrSpec {
    CollectionNotFound(Seq<char>),
    FieldNotFound(Seq<char>, Seq<char>),
    RelationNotFound(Seq<char>, Seq<char>),
}

impl AstBuildError {
    pub open spec fn view(&self) -> AstErrSpec {
        match self {
            AstBuildError::CollectionNotFound(c) => AstErrSpec::CollectionNotFound(c@),
            AstBuildError::FieldNotFound(f, c) => AstErrSpec::FieldNotFound(f@, c@),
            AstBuildError::RelationNotFound(f, c) => AstErrSpec::RelationNotFound(f@, c@),
        }
    }

    /// The message of this error.
    pub fn message(&self) -> (r: String)
        ensures
            r@ == match self.view() {
                AstErrSpec::CollectionNotFound(c) => "Collection '"@ + c + "' not found in schema"@,
                AstErrSpec::FieldNotFound(f, c) => "Field '"@ + f + "' not found in collection '"@ + c + "'"@,
                AstErrSpec::RelationNotFound(f, c) => "Relation not found for field '"@ + f + "' in collection '"@ + c + "'"@,
            },
    {
        match self {
            AstBuildError::CollectionNotFound(c) => {
                let mut r = String::from_str("Collection '");
                r.append(c.as_str());
                r.append("' not found in schema");
                r
            },
            AstBuildError::FieldNotFound(f, c) => {
                let mut r = String::from_str("Field '");
                r.append(f.as_str());
                r.append("' not found in collection '");
                r.append(c.as_str());
                r.append("'");
                r
            },
            AstBuildError::RelationNotFound(f, c) => {
                let mut r = String::from_str("Relation not found for field '");
                r.append(f.as_str());
                r.append("' in collection '");
                r.append(c.as_str());
                r.append("'");
                r
            },
        }
    }
}

/// Position of the collection named `name` in the schema, if any.
pub open spec fn find_collection(s: SchemaSpec, name: Seq<char>) -> Option<int> {
    first_where(s.collections, coll_pred(name))
}

/// Primary key of the collection `name`, `id` when it is not in the schema.
pub open spec fn primary_of(s: SchemaSpec, name: Seq<char>) -> Seq<char> {
    match find_collection(s, name) {
        Some(k) => s.collections[k].primary,
        None => "id"@,
    }
}

/// Total length of a list of field strings.
pub open spec fn sumlen(fields: Seq<Seq<char>>) -> nat
    decreases fields.len(),
{
    if fields.len() == 0 { 0 } else { sumlen(fields.drop_last()) + fields.last().len() }
}

/// `func(inner)`: the text before the first `(` and the text between it and
/// the first `)`, when that text is not empty.
pub open spec fn spec_parse_function_field(s: Seq<char>) -> Option<(Seq<char>, Seq<char>)> {
    match (first_index(s, '('), first_index(s, ')')) {
        (Some(open), Some(close)) => if close > open + 1 {
            Some((s.take(open), s.subrange(open + 1, close)))
        } else {
            None
        },
        _ => None,
    }
}

/// The concrete (non-alias) fields of a collection, as plain field nodes.
pub open spec fn wildcard_children(fields: Seq<(Seq<char>, bool)>) -> Seq<ChildSpec>
    decreases fields.len(),
{
    if fields.len() == 0 {
        seq![]
    } else {
        let w = wildcard_children(fields.drop_last());
        if fields.last().1 { w } else { w.push(ChildSpec::Field(fields.last().0, None)) }
    }
}

/// The output name that the query's `alias` gives to field `f`.
pub open spec fn alias_of(q: QuerySpec, f: Seq<char>) -> Option<Seq<char>> {
    match q.alias {
        Some(a) => match first_where(a, key_pred(f)) {
            Some(k) => Some(a[k].1),
            None => None,
        },
        None => None,
    }
}

/// The query given under `deep` for the relational field `field` (only its
/// fields, sort, filter, limit, offset, page, search and aggregate), or the
/// empty query.
pub open spec fn deep_query(q: QuerySpec, field: Seq<char>) -> QuerySpec {
    match q.deep {
        Some(d) => match first_where(d, deep_pred(field)) {
            Some(k) => match d[k].1 {
                Some(dq) => QuerySpec {
                    fields: dq.fields,
                    sort: dq.sort,
                    filter: dq.filter,
                    limit: dq.limit,
                    offset: dq.offset,
                    page: dq.page,
                    search: dq.search,
                    aggregate: dq.aggregate,
                    group: None,
                    alias: None,
                    deep: None,
                },
                None => empty_query(),
            },
            None => empty_query(),
        },
        None => empty_query(),
    }
}

/// `collection.field` is a foreign key to another collection.
pub open spec fn is_m2o(r: RelSpec, collection: Seq<char>, field: Seq<char>) -> bool {
    r.collection == collection && r.field == field && r.related_collection is Some
}

/// The relation's metadata names `field` as the many-side field of a
/// relation of `collection` to another collection.
pub open spec fn is_m2o_meta(r: RelSpec, collection: Seq<char>, field: Seq<char>) -> bool {
    match r.meta {
        Some(m) => r.collection == collection && m.many_field == field && r.related_collection is Some,
        None => false,
    }
}

/// Another collection points to `collection`, exposed there as `field`.
pub open spec fn is_o2m(r: RelSpec, collection: Seq<char>, field: Seq<char>) -> bool {
    match r.meta {
        Some(m) => m.one_collection == Some(collection) && m.one_field == Some(field),
        None => false,
    }
}

/// `collection.field` points into one of several collections, named by a
/// discriminator field.
pub open spec fn is_a2o(r: RelSpec, collection: Seq<char>, field: Seq<char>) -> bool {
    match r.meta {
        Some(m) => r.collection == collection && m.many_field == field && m.one_collection_field is Some,
        None => false,
    }
}

/// The child is a relational node named `name`.
pub open spec fn nested_named(c: ChildSpec, name: Seq<char>) -> bool {
    match c {
        ChildSpec::Nested(b) => match *b {
            AstSpec::M2O(r) => r.name == name,
            AstSpec::O2M(r) => r.name == name,
            AstSpec::A2O(r) => r.name == name,
            AstSpec::Root(..) => false,
        },
        _ => false,
    }
}

/// The children of a relational node.
pub open spec fn node_children(n: AstSpec) -> Seq<ChildSpec> {
    match n {
        AstSpec::M2O(r) => r.children,
        AstSpec::O2M(r) => r.children,
        AstSpec::A2O(r) => r.children,
        AstSpec::Root(..) => seq![],
    }
}

/// A relational node with `extra` appended to its children.
pub open spec fn with_more_children(n: AstSpec, extra: Seq<ChildSpec>) -> AstSpec {
    match n {
        AstSpec::M2O(r) => AstSpec::M2O(RelNodeSpec { children: r.children + extra, ..r }),
        AstSpec::O2M(r) => AstSpec::O2M(RelNodeSpec { children: r.children + extra, ..r }),
        AstSpec::A2O(r) => AstSpec::A2O(RelNodeSpec { children: r.children + extra, ..r }),
        AstSpec::Root(..) => n,
    }
}

/// Adds a resolved relational node: its children join those of an earlier
/// node of the same name, else it is appended.
pub open spec fn merge_nested(ch: Seq<ChildSpec>, name: Seq<char>, node: AstSpec) -> Seq<ChildSpec> {
    match first_where(ch, nested_pred(name)) {
        Some(k) => ch.update(k, ChildSpec::Nested(Box::new(with_more_children(*ch[k]->Nested_0, node_children(node))))),
        None => ch.push(ChildSpec::Nested(Box::new(node))),
    }
}

/// The collection is named `name`.
pub open spec fn coll_pred(name: Seq<char>) -> spec_fn(CollSpec) -> bool {
    |c: CollSpec| c.collection == name
}

/// The pair's key is `key`.
pub open spec fn key_pred(key: Seq<char>) -> spec_fn((Seq<char>, Seq<char>)) -> bool {
    |p: (Seq<char>, Seq<char>)| p.0 == key
}

/// The deep entry is for field `field`.
pub open spec fn deep_pred(field: Seq<char>) -> spec_fn((Seq<char>, Option<QuerySpec>)) -> bool {
    |e: (Seq<char>, Option<QuerySpec>)| e.0 == field
}

/// The child is a relational node named `name`.
pub open spec fn nested_pred(name: Seq<char>) -> spec_fn(ChildSpec) -> bool {
    |c: ChildSpec| nested_named(c, name)
}

/// The four ways a field can be relational, in the order they are tried.
#[derive(Clone, Copy, PartialEq, Eq, Structural)]
pub enum RelKind {
    ManyToOne,
    ManyToOneMeta,
    OneToMany,
    AnyToOne,
}

/// Relation `r` makes `collection.field` relational in the way `kind`.
pub open spec fn rel_matches(kind: RelKind, r: RelSpec, collection: Seq<char>, field: Seq<char>) -> bool {
    match kind {
        RelKind::ManyToOne => is_m2o(r, collection, field),
        RelKind::ManyToOneMeta => is_m2o_meta(r, collection, field),
        RelKind::OneToMany => is_o2m(r, collection, field),
        RelKind::AnyToOne => is_a2o(r, collection, field),
    }
}

/// The predicate of `rel_matches`.
pub open spec fn rel_pred(kind: RelKind, collection: Seq<char>, field: Seq<char>) -> spec_fn(RelSpec) -> bool {
    |r: RelSpec| rel_matches(kind, r, collection, field)
}

/// The children that the field strings `fields` select from `collection`,
/// processed in order (or the first error).
pub open spec fn parse_fields_spec(s: SchemaSpec, collection: Seq<char>, fields: Seq<Seq<char>>, q: QuerySpec) -> Result<Seq<ChildSpec>, AstErrSpec>
    decreases sumlen(fields), 1nat, fields.len(),
{
    if fields.len() == 0 {
        if find_collection(s, collection) is Some {
            Ok(seq![])
        } else {
            Err(AstErrSpec::CollectionNotFound(collection))
        }
    } else {
        match parse_fields_spec(s, collection, fields.drop_last(), q) {
            Err(e) => Err(e),
            Ok(ch) => {
                let f = trim(fields.last());
                if f == "*"@ {
                    match find_collection(s, collection) {
                        Some(k) => Ok(ch + wildcard_children(s.collections[k].fields)),
                        None => Ok(ch),
                    }
                } else if spec_parse_function_field(f) is Some {
                    let (func, inner) = spec_parse_function_field(f)->Some_0;
                    Ok(ch.push(ChildSpec::FunctionField(inner, func, Some(func + "("@ + inner + ")"@))))
                } else if first_index(f, '.') is Some {
                    let dot = first_index(f, '.')->Some_0;
                    proof {
                        lemma_trim_len(fields.last());
                        lemma_first_index(f, '.');
                    }
                    match resolve_spec(s, collection, f.take(dot), f.skip(dot + 1), q) {
                        Err(e) => Err(e),
                        Ok(None) => Ok(ch),
                        Ok(Some(node)) => Ok(merge_nested(ch, f.take(dot), node)),
                    }
                } else {
                    Ok(ch.push(ChildSpec::Field(f, alias_of(q, f))))
                }
            },
        }
    }
}

/// The relational name of a child that is a relational node.
pub open spec fn nested_name(c: ChildSpec) -> Option<Seq<char>> {
    match c {
        ChildSpec::Nested(b) => match *b {
            AstSpec::M2O(r) => Some(r.name),
            AstSpec::O2M(r) => Some(r.name),
            AstSpec::A2O(r) => Some(r.name),
            AstSpec::Root(..) => None,
        },
        _ => None,
    }
}

/// No two relational children carry the same name.
pub open spec fn nested_names_distinct(ch: Seq<ChildSpec>) -> bool {
    forall|i: int, j: int|
        0 <= i < j < ch.len() && #[trigger] nested_name(ch[i]) is Some ==> nested_name(ch[i]) != #[trigger] nested_name(ch[j])
}

proof fn lemma_wildcard_plain(fields: Seq<(Seq<char>, bool)>)
    ensures
        forall|i: int| 0 <= i < wildcard_children(fields).len() ==> #[trigger] nested_name(wildcard_children(fields)[i]) is None,
    decreases fields.len(),
{
    if fields.len() > 0 {
        lemma_wildcard_plain(fields.drop_last());
    }
}

proof fn lemma_resolve_named(s: SchemaSpec, collection: Seq<char>, name: Seq<char>, rest: Seq<char>, q: QuerySpec)
    ensures
        resolve_spec(s, collection, name, rest, q) matches Ok(Some(node)) ==> nested_name(ChildSpec::Nested(Box::new(node))) == Some(name),
{
}

/// Dotted fields through one relation meet in one node: among the children
/// that `parse_fields` builds, no two relational nodes carry the same name;
/// a later field through a relation already present adds its children to
/// that node.
pub proof fn lemma_nested_children_distinct(s: SchemaSpec, collection: Seq<char>, fields: Seq<Seq<char>>, q: QuerySpec)
    ensures
        parse_fields_spec(s, collection, fields, q) matches Ok(ch) ==> nested_names_distinct(ch),
    decreases fields.len(),
{
    if fields.len() > 0 {
        lemma_nested_children_distinct(s, collection, fields.drop_last(), q);
        match parse_fields_spec(s, collection, fields.drop_last(), q) {
            Err(_) => {},
            Ok(ch) => {
                let f = trim(fields.last());
                if f == "*"@ {
                    match find_collection(s, collection) {
                        Some(k) => {
                            let w = wildcard_children(s.collections[k].fields);
                            lemma_wildcard_plain(s.collections[k].fields);
                            let all = ch + w;
                            assert forall|i: int, j: int|
                                0 <= i < j < all.len() && #[trigger] nested_name(all[i]) is Some implies nested_name(all[i]) != #[trigger] nested_name(all[j]) by {
                                if j >= ch.len() {
                                    assert(all[j] == w[j - ch.len()]);
                                } else {
                                    assert(all[i] == ch[i]);
                                    assert(all[j] == ch[j]);
                                }
                            }
                        },
                        None => {},
                    }
                } else if spec_parse_function_field(f) is Some {
                    let (func, inner) = spec_parse_function_field(f)->Some_0;
                    let all = ch.push(ChildSpec::FunctionField(inner, func, Some(func + "("@ + inner + ")"@)));
                    assert forall|i: int, j: int|
                        0 <= i < j < all.len() && #[trigger] nested_name(all[i]) is Some implies nested_name(all[i]) != #[trigger] nested_name(all[j]) by {
                        if j < ch.len() {
                            assert(all[i] == ch[i]);
                            assert(all[j] == ch[j]);
                        }
                    }
                } else if first_index(f, '.') is Some {
                    let dot = first_index(f, '.')->Some_0;
                    let name = f.take(dot);
                    lemma_resolve_named(s, collection, name, f.skip(dot + 1), q);
                    match resolve_spec(s, collection, name, f.skip(dot + 1), q) {
                        Ok(Some(node)) => {
                            lemma_merge_distinct(ch, name, node);
                        },
                        _ => {},
                    }
                } else {
                    let all = ch.push(ChildSpec::Field(f, alias_of(q, f)));
                    assert forall|i: int, j: int|
                        0 <= i < j < all.len() && #[trigger] nested_name(all[i]) is Some implies nested_name(all[i]) != #[trigger] nested_name(all[j]) by {
                        if j < ch.len() {
                            assert(all[i] == ch[i]);
                            assert(all[j] == ch[j]);
                        }
                    }
                }
            },
        }
    }
}

proof fn lemma_merge_distinct(ch: Seq<ChildSpec>, name: Seq<char>, node: AstSpec)
    requires
        nested_names_distinct(ch),
        nested_name(ChildSpec::Nested(Box::new(node))) == Some(name),
    ensures
        nested_names_distinct(merge_nested(ch, name, node)),
{
    lemma_first_where_props(ch, nested_pred(name));
    let all = merge_nested(ch, name, node);
    match first_where(ch, nested_pred(name)) {
        Some(k) => {
            assert(nested_named(ch[k], name));
            let upd = ChildSpec::Nested(Box::new(with_more_children(*ch[k]->Nested_0, node_children(node))));
            assert(nested_name(upd) == nested_name(ch[k]));
            assert forall|i: int, j: int|
                0 <= i < j < all.len() && #[trigger] nested_name(all[i]) is Some implies nested_name(all[i]) != #[trigger] nested_name(all[j]) by {
                assert(nested_name(all[i]) == nested_name(ch[i]));
                assert(nested_name(all[j]) == nested_name(ch[j]));
            }
        },
        None => {
            assert forall|i: int, j: int|
                0 <= i < j < all.len() && #[trigger] nested_name(all[i]) is Some implies nested_name(all[i]) != #[trigger] nested_name(all[j]) by {
                if j == ch.len() {
                    assert(!nested_pred(name)(ch[i]));
                    assert(all[i] == ch[i]);
                } else {
                    assert(all[i] == ch[i]);
                    assert(all[j] == ch[j]);
                }
            }
        },
    }
}

/// The relational node for field `name` of `collection` selecting `rest`
/// through it: tried as many-to-one, many-to-one by metadata, one-to-many,
/// then any-to-one; `None` when no relation matches.
pub open spec fn resolve_spec(s: SchemaSpec, collection: Seq<char>, name: Seq<char>, rest: Seq<char>, q: QuerySpec) -> Result<Option<AstSpec>, AstErrSpec>
    decreases rest.len(), 2nat, 0nat,
{
    let rels = s.relations;
    let nested = seq![rest];
    proof {
        assert(nested.drop_last() =~= Seq::<Seq<char>>::empty());
        assert(sumlen(Seq::<Seq<char>>::empty()) == 0);
        assert(nested.last() == rest);
        assert(sumlen(nested) == rest.len());
    }
    match first_where(rels, rel_pred(RelKind::ManyToOne, collection, name)) {
        Some(k) => {
            let related = rels[k].related_collection->Some_0;
            match parse_fields_spec(s, related, nested, empty_query()) {
                Err(e) => Err(e),
                Ok(ch) => Ok(Some(AstSpec::M2O(RelNodeSpec {
                    name: name,
                    field_key: name,
                    parent_key: primary_of(s, related),
                    relation_type: RelationType::ManyToOne,
                    children: ch,
                    query: deep_query(q, name),
                }))),
            }
        },
        None => match first_where(rels, rel_pred(RelKind::ManyToOneMeta, collection, name)) {
            Some(k) => {
                let related = rels[k].related_collection->Some_0;
                match parse_fields_spec(s, related, nested, empty_query()) {
                    Err(e) => Err(e),
                    Ok(ch) => Ok(Some(AstSpec::M2O(RelNodeSpec {
                        name: name,
                        field_key: rels[k].field,
                        parent_key: primary_of(s, related),
                        relation_type: RelationType::ManyToOne,
                        children: ch,
                        query: deep_query(q, name),
                    }))),
                }
            },
            None => match first_where(rels, rel_pred(RelKind::OneToMany, collection, name)) {
                Some(k) => {
                    match parse_fields_spec(s, rels[k].collection, nested, empty_query()) {
                        Err(e) => Err(e),
                        Ok(ch) => Ok(Some(AstSpec::O2M(RelNodeSpec {
                            name: name,
                            field_key: rels[k].field,
                            parent_key: primary_of(s, collection),
                            relation_type: RelationType::OneToMany,
                            children: ch,
                            query: deep_query(q, name),
                        }))),
                    }
                },
                None => match first_where(rels, rel_pred(RelKind::AnyToOne, collection, name)) {
                    Some(k) => {
                        let m = rels[k].meta->Some_0;
                        let ch = match m.one_allowed_collections {
                            Some(allowed) => if allowed.len() > 0 {
                                match parse_fields_spec(s, allowed[0], nested, empty_query()) {
                                    Ok(c) => c,
                                    Err(_) => seq![],
                                }
                            } else {
                                seq![]
                            },
                            None => seq![],
                        };
                        Ok(Some(AstSpec::A2O(RelNodeSpec {
                            name: name,
                            field_key: rels[k].field,
                            parent_key: m.one_collection_field->Some_0,
                            relation_type: RelationType::AnyToOne,
                            children: ch,
                            query: deep_query(q, name),
                        })))
                    },
                    None => Ok(None),
                },
            },
        },
    }
}

/// Whether the optional string is present and equal to `s`.
fn opt_str_is(o: &Option<String>, s: &str) -> (r: bool)
    ensures
        r == (opt_view(*o) == Some(s@)),
{
    match o {
        Some(x) => str_eq(x.as_str(), s),
        None => false,
    }
}

/// Position of the collection `name` in the schema.
fn find_collection_exec(schema: &SchemaOverview, name: &str) -> (r: Option<usize>)
    ensures
        match r {
            Some(k) => k < schema.collections@.len() && find_collection(schema.view(), name@) == Some(k as int),
            None => find_collection(schema.view(), name@) is None,
        },
{
    let ghost sv = schema.view().collections;
    let mut i: usize = 0;
    while i < schema.collections.len()
        invariant
            sv == schema.view().collections,
            i <= schema.collections@.len(),
            forall|j: int| 0 <= j < i ==> !coll_pred(name@)(#[trigger] sv[j]),
        decreases schema.collections@.len() - i,
    {
        if str_eq(schema.collections[i].collection.as_str(), name) {
            proof {
                lemma_first_where_found(sv, coll_pred(name@), i as int);
            }
            return Some(i);
        }
        i = i + 1;
    }
    proof {
        lemma_first_where_none(sv, coll_pred(name@));
    }
    None
}

/// Whether relation `r` makes `collection.field` relational in the way `kind`.
fn rel_matches_exec(r: &Relation, kind: RelKind, collection: &str, field: &str) -> (b: bool)
    ensures
        b == rel_matches(kind, r.view(), collection@, field@),
{
    match kind {
        RelKind::ManyToOne => str_eq(r.collection.as_str(), collection) && str_eq(r.field.as_str(), field)
            && r.related_collection.is_some(),
        RelKind::ManyToOneMeta => match &r.meta {
            Some(m) => str_eq(r.collection.as_str(), collection) && str_eq(m.many_field.as_str(), field)
                && r.related_collection.is_some(),
            None => false,
        },
        RelKind::OneToMany => match &r.meta {
            Some(m) => opt_str_is(&m.one_collection, collection) && opt_str_is(&m.one_field, field),
            None => false,
        },
        RelKind::AnyToOne => match &r.meta {
            Some(m) => str_eq(r.collection.as_str(), collection) && str_eq(m.many_field.as_str(), field)
                && m.one_collection_field.is_some(),
            None => false,
        },
    }
}

/// Position of the first relation that makes `collection.field` relational
/// in the way `kind`.
fn find_relation(schema: &SchemaOverview, kind: RelKind, collection: &str, field: &str) -> (r: Option<usize>)
    ensures
        match r {
            Some(k) => k < schema.relations@.len() && first_where(schema.view().relations, rel_pred(kind, collection@, field@)) == Some(k as int),
            None => first_where(schema.view().relations, rel_pred(kind, collection@, field@)) is None,
        },
{
    let ghost sv = schema.view().relations;
    let ghost p = rel_pred(kind, collection@, field@);
    let mut i: usize = 0;
    while i < schema.relations.len()
        invariant
            sv == schema.view().relations,
            p == rel_pred(kind, collection@, field@),
            i <= schema.relations@.len(),
            forall|j: int| 0 <= j < i ==> !p(#[trigger] sv[j]),
        decreases schema.relations@.len() - i,
    {
        if rel_matches_exec(&schema.relations[i], kind, collection, field) {
            proof {
                lemma_first_where_found(sv, p, i as int);
            }
            return Some(i);
        }
        i = i + 1;
    }
    proof {
        lemma_first_where_none(sv, p);
    }
    None
}

/// Splits `count(comments)` into the function and the field it applies to:
/// the text before the first `(` and the text between it and the first `)`,
/// when the latter is not empty.
pub fn parse_function_field(s: &str) -> (r: Option<(String, String)>)
    ensures
        match r {
            Some((f, inner)) => spec_parse_function_field(s@) == Some((f@, inner@)),
            None => spec_parse_function_field(s@) is None,
        },
{
    let cs = chars_of(s);
    let open = find_char(&cs, '(');
    let close = find_char(&cs, ')');
    proof {
        lemma_first_index(s@, '(');
        lemma_first_index(s@, ')');
    }
    match (open, close) {
        (Some(o), Some(c)) => {
            let n = cs.len();
            assert(o < n);
            if c > o + 1 {
                let func = string_of(&sub_chars(&cs, 0, o));
                let inner = string_of(&sub_chars(&cs, o + 1, c));
                proof {
                    assert(func@ =~= s@.take(o as int));
                }
                Some((func, inner))
            } else {
                None
            }
        },
        _ => None,
    }
}

/// The nested query that the `deep` parameter gives for `field_name`,
/// reduced to what a nested read uses; the empty query when there is none.
pub fn extract_deep_query(query: &Query, field_name: &str) -> (r: Query)
    ensures
        r.view() == deep_query(query.view(), field_name@),
{
    match &query.deep {
        Some(d) => {
            let ghost dv = query.view().deep->Some_0;
            let ghost p = deep_pred(field_name@);
            let mut i: usize = 0;
            while i < d.len()
                invariant
                    dv == query.view().deep->Some_0,
                    query.deep == Some(*d),
                    p == deep_pred(field_name@),
                    i <= d@.len(),
                    forall|j: int| 0 <= j < i ==> !p(#[trigger] dv[j]),
                decreases d@.len() - i,
            {
                if str_eq(d[i].0.as_str(), field_name) {
                    proof {
                        lemma_first_where_found(dv, p, i as int);
                        assert(dv[i as int].1 == match d@[i as int].1 {
                            Some(q) => Some(q.view()),
                            None => None,
                        });
                    }
                    return match &d[i].1 {
                        Some(dq) => Query {
                            fields: copy_opt_strings(&dq.fields),
                            sort: copy_opt_strings(&dq.sort),
                            filter: match &dq.filter {
                                Some(f) => Some(f.copy()),
                                None => None,
                            },
                            limit: dq.limit,
                            offset: dq.offset,
                            page: dq.page,
                            search: copy_opt_string(&dq.search),
                            group: None,
                            aggregate: match &dq.aggregate {
                                Some(a) => Some(a.copy()),
                                None => None,
                            },
                            alias: None,
                            deep: None,
                        },
                        None => Query::empty(),
                    };
                }
                i = i + 1;
            }
            proof {
                lemma_first_where_none(dv, p);
            }
            Query::empty()
        },
        None => Query::empty(),
    }
}

proof fn lemma_child_views_push(v: Seq<ChildNode>, x: ChildNode)
    ensures
        child_views(v.push(x)) == child_views(v).push(x.view()),
{
    assert(child_views(v.push(x)) =~= child_views(v).push(x.view()));
}

pub proof fn lemma_rel_children(r: RelationalNode)
    ensures
        r.view().children == child_views(r.children@),
{
    assert(r.view().children =~= child_views(r.children@));
}

proof fn lemma_sumlen_bound(f: Seq<Seq<char>>)
    ensures
        forall|j: int| 0 <= j < f.len() ==> #[trigger] f[j].len() <= sumlen(f),
    decreases f.len(),
{
    if f.len() > 0 {
        lemma_sumlen_bound(f.drop_last());
        assert forall|j: int| 0 <= j < f.len() implies #[trigger] f[j].len() <= sumlen(f) by {
            if j < f.len() - 1 {
                assert(f.drop_last()[j] == f[j]);
            }
        }
    }
}

/// Whether the child is a relational node named `name`.
fn is_nested_named(c: &ChildNode, name: &str) -> (b: bool)
    ensures
        b == nested_named(c.view(), name@),
{
    match c {
        ChildNode::Nested(n) => {
            let inner: &AstNode = n;
            assert(c.view() == ChildSpec::Nested(Box::new(inner.view())));
            match inner {
                AstNode::M2O(r) => str_eq(r.name.as_str(), name),
                AstNode::O2M(r) => str_eq(r.name.as_str(), name),
                AstNode::A2O(r) => str_eq(r.name.as_str(), name),
                AstNode::Root(_) => false,
            }
        },
        _ => false,
    }
}

/// The children of a relational node (none for a root).
fn take_node_children(n: AstNode) -> (r: Vec<ChildNode>)
    ensures
        child_views(r@) == node_children(n.view()),
{
    match n {
        AstNode::M2O(r) => {
            proof { lemma_rel_children(r); }
            r.children
        },
        AstNode::O2M(r) => {
            proof { lemma_rel_children(r); }
            r.children
        },
        AstNode::A2O(r) => {
            proof { lemma_rel_children(r); }
            r.children
        },
        AstNode::Root(_) => {
            let v: Vec<ChildNode> = Vec::new();
            assert(child_views(v@) =~= Seq::<ChildSpec>::empty());
            v
        },
    }
}

/// A relational node with `extra` appended to its children.
fn add_children(r: RelationalNode, extra: Vec<ChildNode>) -> (out: RelationalNode)
    ensures
        out.view() == (RelNodeSpec { children: r.view().children + child_views(extra@), ..r.view() }),
{
    let mut r = r;
    let ghost before = r.children@;
    let mut e = extra;
    proof {
        lemma_rel_children(r);
    }
    r.children.append(&mut e);
    proof {
        lemma_rel_children(r);
        assert(child_views(before + extra@) =~= child_views(before) + child_views(extra@));
    }
    r
}

/// Adds a resolved relational node to `children`: its children join those
/// of an earlier node of the same name, else it is appended.
fn merge_into(children: &mut Vec<ChildNode>, name: &str, node: AstNode)
    ensures
        child_views(final(children)@) == merge_nested(child_views(old(children)@), name@, node.view()),
{
    let ghost cv = child_views(children@);
    let ghost p = nested_pred(name@);
    let mut k: usize = 0;
    while k < children.len()
        invariant
            cv == child_views(children@),
            p == nested_pred(name@),
            k <= children@.len(),
            forall|j: int| 0 <= j < k ==> !p(#[trigger] cv[j]),
        ensures
            k <= children@.len(),
            forall|j: int| 0 <= j < k ==> !p(#[trigger] cv[j]),
            k < children@.len() ==> p(cv[k as int]),
        decreases children@.len() - k,
    {
        if is_nested_named(&children[k], name) {
            break;
        }
        k = k + 1;
    }
    if k < children.len() {
        proof {
            lemma_first_where_found(cv, p, k as int);
        }
        let old_child = children.remove(k);
        let merged = match old_child {
            ChildNode::Nested(b) => {
                let inner = *b;
                let extra = take_node_children(node);
                let m = match inner {
                    AstNode::M2O(r) => AstNode::M2O(add_children(r, extra)),
                    AstNode::O2M(r) => AstNode::O2M(add_children(r, extra)),
                    AstNode::A2O(r) => AstNode::A2O(add_children(r, extra)),
                    AstNode::Root(x) => AstNode::Root(x),
                };
                ChildNode::Nested(Box::new(m))
            },
            other => other,
        };
        let ghost removed = children@;
        children.insert(k, merged);
        proof {
            assert(child_views(children@) =~= cv.update(k as int, merged.view()));
        }
    } else {
        proof {
            lemma_first_where_none(cv, p);
            lemma_child_views_push(children@, ChildNode::Nested(Box::new(node)));
        }
        children.push(ChildNode::Nested(Box::new(node)));
    }
}

/// Appends the concrete fields of `coll` to `children`.
fn push_wildcard(children: &mut Vec<ChildNode>, coll: &CollectionOverview)
    ensures
        child_views(final(children)@) == child_views(old(children)@) + wildcard_children(coll.view().fields),
{
    let ghost base = child_views(children@);
    let ghost cf = coll.view().fields;
    let mut j: usize = 0;
    assert(cf.take(0) =~= Seq::<(Seq<char>, bool)>::empty());
    assert(base + wildcard_children(cf.take(0)) =~= base);
    while j < coll.fields.len()
        invariant
            cf == coll.view().fields,
            j <= coll.fields@.len(),
            child_views(children@) == base + wildcard_children(cf.take(j as int)),
        decreases coll.fields@.len() - j,
    {
        proof {
            assert(cf.take(j as int + 1).drop_last() =~= cf.take(j as int));
            assert(cf.take(j as int + 1).last() == cf[j as int]);
        }
        if !coll.fields[j].alias {
            let node = ChildNode::Field(FieldNode { name: coll.fields[j].field.clone(), alias: None });
            proof {
                lemma_child_views_push(children@, node);
                assert(base + wildcard_children(cf.take(j as int + 1)) =~= (base + wildcard_children(cf.take(j as int))).push(node.view()));
            }
            children.push(node);
        }
        j = j + 1;
    }
    assert(cf.take(coll.fields@.len() as int) =~= cf);
}

/// The output name that the query's `alias` parameter gives to field `f`.
fn alias_lookup(query: &Query, f: &str) -> (r: Option<String>)
    ensures
        opt_view(r) == alias_of(query.view(), f@),
{
    match &query.alias {
        Some(a) => {
            let ghost av = query.view().alias->Some_0;
            let ghost p = key_pred(f@);
            let mut i: usize = 0;
            while i < a.len()
                invariant
                    av == query.view().alias->Some_0,
                    query.alias == Some(*a),
                    p == key_pred(f@),
                    i <= a@.len(),
                    forall|j: int| 0 <= j < i ==> !p(#[trigger] av[j]),
                decreases a@.len() - i,
            {
                if str_eq(a[i].0.as_str(), f) {
                    proof {
                        lemma_first_where_found(av, p, i as int);
                    }
                    return Some(a[i].1.clone());
                }
                i = i + 1;
            }
            proof {
                lemma_first_where_none(av, p);
            }
            None
        },
        None => None,
    }
}

/// Primary key of the collection `name`, `id` when it is not in the schema.
fn primary_exec(schema: &SchemaOverview, name: &str) -> (r: String)
    ensures
        r@ == primary_of(schema.view(), name@),
{
    match find_collection_exec(schema, name) {
        Some(k) => schema.collections[k].primary.clone(),
        None => String::from_str("id"),
    }
}

/// Parses field strings into the children they select from `collection`:
/// `*` expands to the collection's concrete fields, `func(field)` is a
/// function field, `rel.rest` is resolved through the relation `rel`, and
/// anything else is a plain field (renamed by the query's `alias`).
fn parse_fields(collection: &str, fields: &Vec<String>, query: &Query, schema: &SchemaOverview) -> (r: Result<Vec<ChildNode>, AstBuildError>)
    ensures
        match r {
            Ok(ch) => parse_fields_spec(schema.view(), collection@, views(fields@), query.view()) == Ok::<Seq<ChildSpec>, AstErrSpec>(child_views(ch@)),
            Err(e) => parse_fields_spec(schema.view(), collection@, views(fields@), query.view()) == Err::<Seq<ChildSpec>, AstErrSpec>(e.view()),
        },
    decreases sumlen(views(fields@)), 1nat,
{
    let ghost sv = schema.view();
    let ghost fv = views(fields@);
    let ghost qv = query.view();
    let coll_idx = match find_collection_exec(schema, collection) {
        Some(k) => k,
        None => {
            proof {
                lemma_parse_fields_missing(sv, collection@, fv, qv);
            }
            return Err(AstBuildError::CollectionNotFound(String::from_str(collection)));
        },
    };
    let mut children: Vec<ChildNode> = Vec::new();
    proof {
        lemma_sumlen_bound(fv);
        assert(fv.take(0) =~= Seq::<Seq<char>>::empty());
        assert(child_views(children@) =~= Seq::<ChildSpec>::empty());
    }
    let mut i: usize = 0;
    while i < fields.len()
        invariant
            sv == schema.view(),
            fv == views(fields@),
            qv == query.view(),
            coll_idx < schema.collections@.len(),
            find_collection(sv, collection@) == Some(coll_idx as int),
            forall|j: int| 0 <= j < fv.len() ==> #[trigger] fv[j].len() <= sumlen(fv),
            i <= fields@.len(),
            parse_fields_spec(sv, collection@, fv.take(i as int), qv) == Ok::<Seq<ChildSpec>, AstErrSpec>(child_views(children@)),
        decreases fields@.len() - i,
    {
        let ghost before = child_views(children@);
        proof {
            assert(fv.take(i as int + 1).drop_last() =~= fv.take(i as int));
            assert(fv.take(i as int + 1).last() == fv[i as int]);
            assert(fv[i as int] == fields@[i as int]@);
        }
        let f = trim_str(fields[i].as_str());
        if str_eq(f, "*") {
            push_wildcard(&mut children, &schema.collections[coll_idx]);
        } else {
            match parse_function_field(f) {
                Some((func, inner)) => {
                    let mut alias = func.clone();
                    alias.append("(");
                    alias.append(inner.as_str());
                    alias.append(")");
                    let node = ChildNode::FunctionField(FunctionFieldNode { name: inner, function: func, alias: Some(alias) });
                    proof {
                        lemma_child_views_push(children@, node);
                    }
                    children.push(node);
                },
                None => {
                    let fc = chars_of(f);
                    match find_char(&fc, '.') {
                        Some(dot) => {
                            proof {
                                lemma_first_index(f@, '.');
                                lemma_trim_len(fv[i as int]);
                            }
                            let n = fc.len();
                            assert(dot < n);
                            let parent = string_of(&sub_chars(&fc, 0, dot));
                            let rest = string_of(&sub_chars(&fc, dot + 1, n));
                            proof {
                                assert(parent@ =~= f@.take(dot as int));
                                assert(rest@ =~= f@.skip(dot as int + 1));
                            }
                            match resolve_relational_field(collection, parent.as_str(), rest.as_str(), query, schema) {
                                Err(e) => {
                                    proof {
                                        lemma_parse_fields_err_prefix(sv, collection@, fv, qv, i as int + 1, e.view());
                                    }
                                    return Err(e);
                                },
                                Ok(None) => {},
                                Ok(Some(node)) => {
                                    merge_into(&mut children, parent.as_str(), node);
                                },
                            }
                        },
                        None => {
                            let alias = alias_lookup(query, f);
                            let node = ChildNode::Field(FieldNode { name: String::from_str(f), alias: alias });
                            proof {
                                lemma_child_views_push(children@, node);
                            }
                            children.push(node);
                        },
                    }
                },
            }
        }
        i = i + 1;
    }
    assert(fv.take(fields@.len() as int) =~= fv);
    Ok(children)
}

/// An error on a prefix of the field list is the error of the whole list.
proof fn lemma_parse_fields_err_prefix(s: SchemaSpec, c: Seq<char>, f: Seq<Seq<char>>, q: QuerySpec, k: int, e: AstErrSpec)
    requires
        0 <= k <= f.len(),
        parse_fields_spec(s, c, f.take(k), q) == Err::<Seq<ChildSpec>, AstErrSpec>(e),
    ensures
        parse_fields_spec(s, c, f, q) == Err::<Seq<ChildSpec>, AstErrSpec>(e),
    decreases f.len(),
{
    if k == f.len() {
        assert(f.take(k) =~= f);
    } else {
        assert(f.drop_last().take(k) =~= f.take(k));
        lemma_parse_fields_err_prefix(s, c, f.drop_last(), q, k, e);
    }
}

/// With the collection missing, parsing fails naming it.
proof fn lemma_parse_fields_missing(s: SchemaSpec, c: Seq<char>, f: Seq<Seq<char>>, q: QuerySpec)
    requires
        find_collection(s, c) is None,
    ensures
        parse_fields_spec(s, c, f, q) == Err::<Seq<ChildSpec>, AstErrSpec>(AstErrSpec::CollectionNotFound(c)),
    decreases f.len(),
{
    if f.len() > 0 {
        lemma_parse_fields_missing(s, c, f.drop_last(), q);
    }
}

/// Resolves `field_name` of `collection` as a relational field selecting
/// `nested_fields` through it; `None` when no relation makes it relational.
fn resolve_relational_field(collection: &str, field_name: &str, nested_fields: &str, query: &Query, schema: &SchemaOverview) -> (r: Result<Option<AstNode>, AstBuildError>)
    ensures
        match r {
            Ok(Some(n)) => resolve_spec(schema.view(), collection@, field_name@, nested_fields@, query.view()) == Ok::<Option<AstSpec>, AstErrSpec>(Some(n.view())),
            Ok(None) => resolve_spec(schema.view(), collection@, field_name@, nested_fields@, query.view()) == Ok::<Option<AstSpec>, AstErrSpec>(None),
            Err(e) => resolve_spec(schema.view(), collection@, field_name@, nested_fields@, query.view()) == Err::<Option<AstSpec>, AstErrSpec>(e.view()),
        },
    decreases nested_fields@.len(), 2nat,
{
    let mut nested: Vec<String> = Vec::new();
    nested.push(String::from_str(nested_fields));
    let empty = Query::empty();
    proof {
        let nv = views(nested@);
        assert(nv =~= seq![nested_fields@]);
        assert(nv.drop_last() =~= Seq::<Seq<char>>::empty());
        assert(sumlen(Seq::<Seq<char>>::empty()) == 0);
        assert(sumlen(nv) == nested_fields@.len());
    }
    if let Some(k) = find_relation(schema, RelKind::ManyToOne, collection, field_name) {
        let rel = &schema.relations[k];
        assert(rel.view() == schema.view().relations[k as int]);
        proof {
            lemma_first_where_props(schema.view().relations, rel_pred(RelKind::ManyToOne, collection@, field_name@));
        }
        match &rel.related_collection {
            Some(related) => {
                let ch = match parse_fields(related.as_str(), &nested, &empty, schema) {
                    Ok(ch) => ch,
                    Err(e) => {
                        return Err(e);
                    },
                };
                let node = RelationalNode {
                    name: String::from_str(field_name),
                    field_key: String::from_str(field_name),
                    parent_key: primary_exec(schema, related.as_str()),
                    relation_type: RelationType::ManyToOne,
                    children: ch,
                    query: extract_deep_query(query, field_name),
                };
                proof {
                    lemma_rel_children(node);
                }
                return Ok(Some(AstNode::M2O(node)));
            },
            None => {
                return Ok(None);
            },
        }
    }
    if let Some(k) = find_relation(schema, RelKind::ManyToOneMeta, collection, field_name) {
        let rel = &schema.relations[k];
        assert(rel.view() == schema.view().relations[k as int]);
        proof {
            lemma_first_where_props(schema.view().relations, rel_pred(RelKind::ManyToOneMeta, collection@, field_name@));
        }
        match &rel.related_collection {
            Some(related) => {
                let ch = match parse_fields(related.as_str(), &nested, &empty, schema) {
                    Ok(ch) => ch,
                    Err(e) => {
                        return Err(e);
                    },
                };
                let node = RelationalNode {
                    name: String::from_str(field_name),
                    field_key: rel.field.clone(),
                    parent_key: primary_exec(schema, related.as_str()),
                    relation_type: RelationType::ManyToOne,
                    children: ch,
                    query: extract_deep_query(query, field_name),
                };
                proof {
                    lemma_rel_children(node);
                }
                return Ok(Some(AstNode::M2O(node)));
            },
            None => {
                return Ok(None);
            },
        }
    }
    if let Some(k) = find_relation(schema, RelKind::OneToMany, collection, field_name) {
        let rel = &schema.relations[k];
        assert(rel.view() == schema.view().relations[k as int]);
        let ch = match parse_fields(rel.collection.as_str(), &nested, &empty, schema) {
            Ok(ch) => ch,
            Err(e) => {
                return Err(e);
            },
        };
        let node = RelationalNode {
            name: String::from_str(field_name),
            field_key: rel.field.clone(),
            parent_key: primary_exec(schema, collection),
            relation_type: RelationType::OneToMany,
            children: ch,
            query: extract_deep_query(query, field_name),
        };
        proof {
            lemma_rel_children(node);
        }
        return Ok(Some(AstNode::O2M(node)));
    }
    if let Some(k) = find_relation(schema, RelKind::AnyToOne, collection, field_name) {
        let rel = &schema.relations[k];
        assert(rel.view() == schema.view().relations[k as int]);
        proof {
            lemma_first_where_props(schema.view().relations, rel_pred(RelKind::AnyToOne, collection@, field_name@));
        }
        match &rel.meta {
            Some(meta) => {
                let ch: Vec<ChildNode> = match &meta.one_allowed_collections {
                    Some(allowed) => {
                        if allowed.len() > 0 {
                            match parse_fields(allowed[0].as_str(), &nested, &empty, schema) {
                                Ok(c) => c,
                                Err(_) => Vec::new(),
                            }
                        } else {
                            Vec::new()
                        }
                    },
                    None => Vec::new(),
                };
                let parent_key = match &meta.one_collection_field {
                    Some(f) => f.clone(),
                    None => String::from_str("collection"),
                };
                let node = RelationalNode {
                    name: String::from_str(field_name),
                    field_key: rel.field.clone(),
                    parent_key: parent_key,
                    relation_type: RelationType::AnyToOne,
                    children: ch,
                    query: extract_deep_query(query, field_name),
                };
                proof {
                    lemma_rel_children(node);
                    assert(child_views(Seq::<ChildNode>::empty()) =~= Seq::<ChildSpec>::empty());
                }
                return Ok(Some(AstNode::A2O(node)));
            },
            None => {
                return Ok(None);
            },
        }
    }
    Ok(None)
}

/// The AST of a read of `collection` with `query`.
pub open spec fn ast_spec(s: SchemaSpec, collection: Seq<char>, q: QuerySpec) -> Result<AstSpec, AstErrSpec> {
    if find_collection(s, collection) is None {
        Err(AstErrSpec::CollectionNotFound(collection))
    } else {
        let fields = match q.fields {
            Some(f) => f,
            None => seq!["*"@],
        };
        match parse_fields_spec(s, collection, fields, q) {
            Ok(ch) => Ok(AstSpec::Root(collection, ch, q)),
            Err(e) => Err(e),
        }
    }
}

/// Builds the AST of a read of `collection` with `query`: the root selects
/// the query's fields (all concrete fields by default), with relational
/// fields resolved from the schema; unknown collections are an error.
pub fn get_ast_from_query(collection: &str, query: &Query, schema: &SchemaOverview) -> (r: Result<AstNode, AstBuildError>)
    ensures
        match r {
            Ok(n) => ast_spec(schema.view(), collection@, query.view()) == Ok::<AstSpec, AstErrSpec>(n.view()),
            Err(e) => ast_spec(schema.view(), collection@, query.view()) == Err::<AstSpec, AstErrSpec>(e.view()),
        },
{
    if find_collection_exec(schema, collection).is_none() {
        return Err(AstBuildError::CollectionNotFound(String::from_str(collection)));
    }
    let default_fields = {
        let mut v: Vec<String> = Vec::new();
        v.push(String::from_str("*"));
        v
    };
    let raw_fields: &Vec<String> = match &query.fields {
        Some(f) => f,
        None => &default_fields,
    };
    proof {
        assert(views(default_fields@) =~= seq!["*"@]);
    }
    let children = match parse_fields(collection, raw_fields, query, schema) {
        Ok(c) => c,
        Err(e) => {
            return Err(e);
        },
    };
    let root = RootNode { name: String::from_str(collection), children: children, query: query.copy() };
    let n = AstNode::Root(root);
    proof {
        assert(n.view()->Root_1 =~= child_views(children@));
    }
    Ok(n)
}

} // verus!
