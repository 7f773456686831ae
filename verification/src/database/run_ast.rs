//! Planning the SQL of an AST: the main SELECT with LEFT JOINs for
//! many-to-one relations, and how result columns map back to output fields.

use vstd::prelude::*;
use vstd::string::*;
use crate::text::{contains_string, spec_to_uppercase, to_uppercase, chars_of, join, join_strings, push_signed_decimal, signed_decimal, string_of, sub_chars, views};
use super::{quote, sql_views, Dialect, RunAstError, SqlSpec, SqlValue};
use super::ast::{child_views, lemma_rel_children, AstNode, AstSpec, ChildNode, ChildSpec, RelNodeSpec, RelationalNode, RootNode};
use super::query::{opt_view, QuerySpec};
use super::sql::{build_filter_sql, filter_sql, filter_width, param, params_from, sql_of, value_to_sql_value};
use crate::json::{distinct_keys, lemma_obj_get_distinct, lemma_obj_get_index, lemma_obj_get_push, lemma_obj_get_some, lemma_set_entry_distinct, lemma_set_entry_get, member_get, lemma_array_view, get_str, json_text, lemma_object_view, members_view, obj_get, set_entry, set_member, write_json, Json, JsonValue};

verus! {

/// How a result column becomes an output field.
#[derive(Debug)]
pub enum ColumnMapping {
    /// The column is returned as the output field `output`.
    Direct { column: String, output: String },
    /// The column is field `field` of the joined relation `relation`.
    Nested { column: String, relation: String, field: String },
}

/// View of a column mapping.
pub enum ColSpec {
    Direct(Seq<char>, Seq<char>),
    Nested(Seq<char>, Seq<char>, Seq<char>),
}

impl ColumnMapping {
    pub open spec fn view(&self) -> ColSpec {
        match self {
            ColumnMapping::Direct { column, output } => ColSpec::Direct(column@, output@),
            ColumnMapping::Nested { column, relation, field } => ColSpec::Nested(column@, relation@, field@),
        }
    }
}

/// Views of a list of column mappings.
pub open spec fn col_views(v: Seq<ColumnMapping>) -> Seq<ColSpec> {
    Seq::new(v.len(), |i: int| v[i].view())
}

/// The value of an optional string, or `d` when absent.
pub open spec fn or_else(o: Option<Seq<char>>, d: Seq<char>) -> Seq<char> {
    match o {
        Some(x) => x,
        None => d,
    }
}

/// Select list, join clauses and column mappings, as the children are walked.
pub struct SelectState {
    pub select: Seq<Seq<char>>,
    pub joins: Seq<Seq<char>>,
    pub cols: Seq<ColSpec>,
}

/// Adds the nested plain fields of a joined many-to-one relation.
pub open spec fn joined_fields(d: Dialect, rel: RelNodeSpec, cs: Seq<ChildSpec>, st: SelectState) -> SelectState
    decreases cs.len(),
{
    if cs.len() == 0 {
        st
    } else {
        let before = joined_fields(d, rel, cs.drop_last(), st);
        match cs.last() {
            ChildSpec::Field(name, alias) => {
                let col_alias = rel.name + "__"@ + name;
                SelectState {
                    select: before.select.push(quote(d, rel.name) + "."@ + quote(d, name) + " AS "@ + quote(d, col_alias)),
                    joins: before.joins,
                    cols: before.cols.push(ColSpec::Nested(col_alias, rel.name, or_else(alias, name))),
                }
            },
            _ => before,
        }
    }
}

/// The LEFT JOIN of a many-to-one relation of the table quoted `tq`.
pub open spec fn join_clause(d: Dialect, tq: Seq<char>, rel: RelNodeSpec) -> Seq<char> {
    let ja = quote(d, rel.name);
    "LEFT JOIN "@ + ja + " AS "@ + ja + " ON "@ + tq + "."@ + quote(d, rel.field_key) + " = "@ + ja + "."@ + quote(d, rel.parent_key)
}

/// Adds what one child of the root contributes to the main SELECT.
pub open spec fn child_select(d: Dialect, tq: Seq<char>, c: ChildSpec, st: SelectState) -> SelectState {
    match c {
        ChildSpec::Field(name, alias) => SelectState {
            select: st.select.push(tq + "."@ + quote(d, name)),
            joins: st.joins,
            cols: st.cols.push(ColSpec::Direct(name, or_else(alias, name))),
        },
        ChildSpec::FunctionField(name, function, alias) => {
            let a = or_else(alias, function + "_"@ + name);
            SelectState {
                select: st.select.push(spec_to_uppercase(function) + "("@ + tq + "."@ + quote(d, name) + ") AS "@ + quote(d, a)),
                joins: st.joins,
                cols: st.cols.push(ColSpec::Direct(a, a)),
            }
        },
        ChildSpec::Nested(b) => match *b {
            AstSpec::M2O(rel) => joined_fields(d, rel, rel.children, SelectState {
                select: st.select,
                joins: st.joins.push(join_clause(d, tq, rel)),
                cols: st.cols,
            }),
            _ => st,
        },
    }
}

/// Walks the children of the root.
pub open spec fn children_select(d: Dialect, tq: Seq<char>, cs: Seq<ChildSpec>) -> SelectState
    decreases cs.len(),
{
    if cs.len() == 0 {
        SelectState { select: seq![], joins: seq![], cols: seq![] }
    } else {
        child_select(d, tq, cs.last(), children_select(d, tq, cs.drop_last()))
    }
}

/// One ORDER BY term: `-field` sorts descending, anything else ascending.
pub open spec fn sort_clause(d: Dialect, tq: Seq<char>, s: Seq<char>) -> Seq<char> {
    if s.len() > 0 && s[0] == '-' {
        tq + "."@ + quote(d, s.skip(1)) + " DESC"@
    } else {
        tq + "."@ + quote(d, s) + " ASC"@
    }
}

/// The qualified, quoted columns `table.g` for a GROUP BY.
pub open spec fn group_cols(d: Dialect, tq: Seq<char>, g: Seq<Seq<char>>) -> Seq<Seq<char>> {
    Seq::new(g.len(), |i: int| tq + "."@ + quote(d, g[i]))
}

/// The ORDER BY terms of a sort list.
pub open spec fn sort_clauses(d: Dialect, tq: Seq<char>, s: Seq<Seq<char>>) -> Seq<Seq<char>> {
    Seq::new(s.len(), |i: int| sort_clause(d, tq, s[i]))
}

/// The main SELECT of a root node of collection `name`, its bound values and
/// the column mappings: the SELECT list and joins of the children (all
/// columns when nothing is selected), then WHERE from the filter (parameters
/// from 1), GROUP BY, ORDER BY, LIMIT (100 when absent, none when negative)
/// and OFFSET, in that order.
pub open spec fn root_sql(d: Dialect, name: Seq<char>, cs: Seq<ChildSpec>, q: QuerySpec) -> (Seq<char>, Seq<SqlSpec>, Seq<ColSpec>) {
    let tq = quote(d, name);
    let st = children_select(d, tq, cs);
    let select = if st.select.len() == 0 { seq![tq + ".*"@] } else { st.select };
    let s1 = "SELECT "@ + join(select, ", "@) + " FROM "@ + tq;
    let s2 = if st.joins.len() == 0 { s1 } else { s1 + " "@ + join(st.joins, " "@) };
    let (s3, binds) = match q.filter {
        Some(f) => {
            let (w, b, _n) = filter_sql(d, name, f, 1);
            if w.len() > 0 { (s2 + " WHERE "@ + w, b) } else { (s2, Seq::<SqlSpec>::empty()) }
        },
        None => (s2, Seq::<SqlSpec>::empty()),
    };
    let s4 = match q.group {
        Some(g) => s3 + " GROUP BY "@ + join(group_cols(d, tq, g), ", "@),
        None => s3,
    };
    let s5 = match q.sort {
        Some(s) => s4 + " ORDER BY "@ + join(sort_clauses(d, tq, s), ", "@),
        None => s4,
    };
    let s6 = match q.limit {
        Some(l) => if l >= 0 { s5 + " LIMIT "@ + signed_decimal(l) } else { s5 },
        None => s5 + " LIMIT 100"@,
    };
    let s7 = match q.offset {
        Some(o) => s6 + " OFFSET "@ + signed_decimal(o),
        None => s6,
    };
    (s7, binds, st.cols)
}

/// The filter width a root query's WHERE clause can consume.
pub open spec fn query_filter_width(q: QuerySpec) -> nat {
    match q.filter {
        Some(f) => filter_width(f),
        None => 0,
    }
}

/// The walk state of three lists.
pub open spec fn state_of(sel: Seq<String>, joins: Seq<String>, cols: Seq<ColumnMapping>) -> SelectState {
    SelectState { select: views(sel), joins: views(joins), cols: col_views(cols) }
}

proof fn lemma_views_push(v: Seq<String>, x: String)
    ensures
        views(v.push(x)) == views(v).push(x@),
{
    assert(views(v.push(x)) =~= views(v).push(x@));
}

proof fn lemma_cols_push(v: Seq<ColumnMapping>, x: ColumnMapping)
    ensures
        col_views(v.push(x)) == col_views(v).push(x.view()),
{
    assert(col_views(v.push(x)) =~= col_views(v).push(x.view()));
}

/// Adds the plain fields of a joined many-to-one relation to the select
/// list and column mappings.
fn push_joined_fields(d: Dialect, rel: &RelationalNode, select: &mut Vec<String>, cols: &mut Vec<ColumnMapping>, joins: &Vec<String>)
    ensures
        state_of(final(select)@, joins@, final(cols)@) == joined_fields(d, rel.view(), rel.view().children, state_of(old(select)@, joins@, old(cols)@)),
{
    let ghost st0 = state_of(select@, joins@, cols@);
    let ghost cs = rel.view().children;
    proof {
        lemma_rel_children(*rel);
    }
    let ja = d.quote_identifier(rel.name.as_str());
    let mut k: usize = 0;
    assert(cs.take(0) =~= Seq::<ChildSpec>::empty());
    while k < rel.children.len()
        invariant
            cs == rel.view().children,
            cs == child_views(rel.children@),
            ja@ == quote(d, rel.name@),
            k <= rel.children@.len(),
            state_of(select@, joins@, cols@) == joined_fields(d, rel.view(), cs.take(k as int), st0),
        decreases rel.children@.len() - k,
    {
        proof {
            assert(cs.take(k as int + 1).drop_last() =~= cs.take(k as int));
            assert(cs.take(k as int + 1).last() == cs[k as int]);
        }
        match &rel.children[k] {
            ChildNode::Field(f) => {
                let mut col_alias = rel.name.clone();
                col_alias.append("__");
                col_alias.append(f.name.as_str());
                let fq = d.quote_identifier(f.name.as_str());
                let aq = d.quote_identifier(col_alias.as_str());
                let mut col = ja.clone();
                col.append(".");
                col.append(fq.as_str());
                col.append(" AS ");
                col.append(aq.as_str());
                let field = match &f.alias {
                    Some(a) => a.clone(),
                    None => f.name.clone(),
                };
                let m = ColumnMapping::Nested { column: col_alias, relation: rel.name.clone(), field: field };
                proof {
                    lemma_views_push(select@, col);
                    lemma_cols_push(cols@, m);
                }
                select.push(col);
                cols.push(m);
            },
            _ => {},
        }
        k = k + 1;
    }
    assert(cs.take(rel.children@.len() as int) =~= cs);
}

/// One ORDER BY term.
fn sort_clause_exec(d: Dialect, tq: &str, s: &str) -> (r: String)
    ensures
        r@ == sort_clause(d, tq@, s@),
{
    let cs = chars_of(s);
    let n = cs.len();
    let mut r = String::from_str(tq);
    r.append(".");
    if n > 0 && cs[0] == '-' {
        let field = string_of(&sub_chars(&cs, 1, n));
        let fq = d.quote_identifier(field.as_str());
        r.append(fq.as_str());
        r.append(" DESC");
        assert(field@ =~= s@.skip(1));
    } else {
        let fq = d.quote_identifier(s);
        r.append(fq.as_str());
        r.append(" ASC");
    }
    r
}

/// Builds the main SELECT of a root node: the statement, its bound values
/// and how result columns map to output fields.
pub fn build_root_query(root: &RootNode, d: Dialect) -> (r: Result<(String, Vec<SqlValue>, Vec<ColumnMapping>), RunAstError>)
    requires
        1 + query_filter_width(root.query.view()) <= usize::MAX,
    ensures
        r is Ok,
        ({
            let (s, b, c) = root_sql(d, root.name@, child_views(root.children@), root.query.view());
            &&& r->Ok_0.0@ == s
            &&& sql_views(r->Ok_0.1@) == b
            &&& col_views(r->Ok_0.2@) == c
        }),
{
    let ghost cs = child_views(root.children@);
    let table = d.quote_identifier(root.name.as_str());
    let ghost tq = table@;
    let mut select: Vec<String> = Vec::new();
    let mut joins: Vec<String> = Vec::new();
    let mut cols: Vec<ColumnMapping> = Vec::new();
    let mut i: usize = 0;
    proof {
        assert(cs.take(0) =~= Seq::<ChildSpec>::empty());
        assert(state_of(select@, joins@, cols@) == (SelectState { select: seq![], joins: seq![], cols: seq![] })) by {
            assert(views(select@) =~= Seq::<Seq<char>>::empty());
            assert(views(joins@) =~= Seq::<Seq<char>>::empty());
            assert(col_views(cols@) =~= Seq::<ColSpec>::empty());
        }
    }
    while i < root.children.len()
        invariant
            cs == child_views(root.children@),
            tq == table@,
            tq == quote(d, root.name@),
            i <= root.children@.len(),
            state_of(select@, joins@, cols@) == children_select(d, tq, cs.take(i as int)),
        decreases root.children@.len() - i,
    {
        proof {
            assert(cs.take(i as int + 1).drop_last() =~= cs.take(i as int));
            assert(cs.take(i as int + 1).last() == cs[i as int]);
        }
        let ghost st = state_of(select@, joins@, cols@);
        match &root.children[i] {
            ChildNode::Field(f) => {
                let fq = d.quote_identifier(f.name.as_str());
                let mut col = table.clone();
                col.append(".");
                col.append(fq.as_str());
                let output = match &f.alias {
                    Some(a) => a.clone(),
                    None => f.name.clone(),
                };
                let m = ColumnMapping::Direct { column: f.name.clone(), output: output };
                proof {
                    lemma_views_push(select@, col);
                    lemma_cols_push(cols@, m);
                }
                select.push(col);
                cols.push(m);
            },
            ChildNode::FunctionField(f) => {
                let alias = match &f.alias {
                    Some(a) => a.clone(),
                    None => {
                        let mut a = f.function.clone();
                        a.append("_");
                        a.append(f.name.as_str());
                        a
                    },
                };
                let up = to_uppercase(f.function.as_str());
                let fq = d.quote_identifier(f.name.as_str());
                let aq = d.quote_identifier(alias.as_str());
                let mut col = up;
                col.append("(");
                col.append(table.as_str());
                col.append(".");
                col.append(fq.as_str());
                col.append(") AS ");
                col.append(aq.as_str());
                let m = ColumnMapping::Direct { column: alias.clone(), output: alias };
                proof {
                    lemma_views_push(select@, col);
                    lemma_cols_push(cols@, m);
                }
                select.push(col);
                cols.push(m);
            },
            ChildNode::Nested(b) => {
                let inner: &AstNode = b;
                assert(root.children@[i as int].view() == ChildSpec::Nested(Box::new(inner.view())));
                match inner {
                    AstNode::M2O(rel) => {
                        let ja = d.quote_identifier(rel.name.as_str());
                        let fk = d.quote_identifier(rel.field_key.as_str());
                        let pk = d.quote_identifier(rel.parent_key.as_str());
                        let mut jc = String::from_str("LEFT JOIN ");
                        jc.append(ja.as_str());
                        jc.append(" AS ");
                        jc.append(ja.as_str());
                        jc.append(" ON ");
                        jc.append(table.as_str());
                        jc.append(".");
                        jc.append(fk.as_str());
                        jc.append(" = ");
                        jc.append(ja.as_str());
                        jc.append(".");
                        jc.append(pk.as_str());
                        proof {
                            lemma_views_push(joins@, jc);
                        }
                        joins.push(jc);
                        push_joined_fields(d, rel, &mut select, &mut cols, &joins);
                    },
                    _ => {},
                }
            },
        }
        i = i + 1;
    }
    assert(cs.take(root.children@.len() as int) =~= cs);
    let ghost st = children_select(d, tq, cs);
    if select.len() == 0 {
        let mut all = table.clone();
        all.append(".*");
        proof {
            lemma_views_push(select@, all);
        }
        select.push(all);
    }
    let mut sql = String::from_str("SELECT ");
    let sel = join_strings(&select, ", ");
    sql.append(sel.as_str());
    sql.append(" FROM ");
    sql.append(table.as_str());
    if joins.len() > 0 {
        let j = join_strings(&joins, " ");
        sql.append(" ");
        sql.append(j.as_str());
    }
    let mut bindings: Vec<SqlValue> = Vec::new();
    match &root.query.filter {
        Some(f) => {
            let res = build_filter_sql(f, d, root.name.as_str(), 1);
            match res {
                Ok((w, b, _n)) => {
                    if !w.as_str().is_empty() {
                        sql.append(" WHERE ");
                        sql.append(w.as_str());
                        bindings = b;
                    }
                },
                Err(e) => {
                    return Err(e);
                },
            }
        },
        None => {},
    }
    assert(sql_views(bindings@) == root_sql(d, root.name@, cs, root.query.view()).1) by {
        if bindings@.len() == 0 {
            assert(sql_views(bindings@) =~= Seq::<SqlSpec>::empty());
        }
    }
    match &root.query.group {
        Some(g) => {
            let mut gc: Vec<String> = Vec::new();
            let mut k: usize = 0;
            while k < g.len()
                invariant
                    k <= g@.len(),
                    tq == table@,
                    views(gc@) =~= group_cols(d, tq, views(g@)).take(k as int),
                decreases g@.len() - k,
            {
                let gq = d.quote_identifier(g[k].as_str());
                let mut c = table.clone();
                c.append(".");
                c.append(gq.as_str());
                proof {
                    lemma_views_push(gc@, c);
                }
                gc.push(c);
                k = k + 1;
            }
            assert(group_cols(d, tq, views(g@)).take(g@.len() as int) =~= group_cols(d, tq, views(g@)));
            let c = join_strings(&gc, ", ");
            sql.append(" GROUP BY ");
            sql.append(c.as_str());
        },
        None => {},
    }
    match &root.query.sort {
        Some(sorts) => {
            let mut clauses: Vec<String> = Vec::new();
            let mut k: usize = 0;
            while k < sorts.len()
                invariant
                    k <= sorts@.len(),
                    tq == table@,
                    views(clauses@) =~= sort_clauses(d, tq, views(sorts@)).take(k as int),
                decreases sorts@.len() - k,
            {
                let c = sort_clause_exec(d, table.as_str(), sorts[k].as_str());
                proof {
                    lemma_views_push(clauses@, c);
                }
                clauses.push(c);
                k = k + 1;
            }
            assert(sort_clauses(d, tq, views(sorts@)).take(sorts@.len() as int) =~= sort_clauses(d, tq, views(sorts@)));
            let c = join_strings(&clauses, ", ");
            sql.append(" ORDER BY ");
            sql.append(c.as_str());
        },
        None => {},
    }
    match root.query.limit {
        Some(l) => {
            if l >= 0 {
                sql.append(" LIMIT ");
                push_signed_decimal(&mut sql, l);
            }
        },
        None => {
            sql.append(" LIMIT 100");
        },
    }
    match root.query.offset {
        Some(o) => {
            sql.append(" OFFSET ");
            push_signed_decimal(&mut sql, o);
        },
        None => {},
    }
    Ok((sql, bindings, cols))
}

/// The table a many-to-one relation joins: the AST does not record it, so
/// the join alias (the relation's name) stands for it.
pub fn find_related_table(rel: &RelationalNode) -> (r: Option<String>)
    ensures
        r is None,
{
    None
}

/// The child collection of a one-to-many relation: the AST does not record
/// it, so the relation's name stands for it.
pub fn find_o2m_collection(rel: &RelationalNode) -> (r: Option<String>)
    ensures
        r is None,
{
    None
}

/// The text a JSON value is keyed by: a string's own text, else its JSON text.
pub open spec fn value_text(v: Json) -> Seq<char> {
    match v {
        Json::Str(s) => s,
        _ => json_text(v),
    }
}

/// The text a JSON value is keyed by when grouping related rows.
pub fn value_to_string(val: &JsonValue) -> (r: String)
    ensures
        r@ == value_text(val@),
{
    match val {
        JsonValue::String(s) => s.clone(),
        _ => {
            let mut t = String::new();
            write_json(val, &mut t);
            assert(t@ =~= json_text(val@));
            t
        },
    }
}

/// Member `key` of `v`, or `null`.
pub open spec fn member_or_null(v: Json, key: Seq<char>) -> Json {
    match v.get(key) {
        Some(x) => x,
        None => Json::Null,
    }
}

/// The non-null values of member `key` of the items, in order.
pub open spec fn parent_keys(items: Seq<Json>, key: Seq<char>) -> Seq<Json>
    decreases items.len(),
{
    if items.len() == 0 {
        seq![]
    } else {
        let r = parent_keys(items.drop_last(), key);
        match items.last().get(key) {
            Some(v) => if v is Null { r } else { r.push(v) },
            None => r,
        }
    }
}

/// Views of a list of JSON values.
pub open spec fn json_views(v: Seq<JsonValue>) -> Seq<Json> {
    Seq::new(v.len(), |i: int| v[i]@)
}

/// The primary keys of the parent items (their non-null `key` members).
pub fn collect_parent_keys(items: &Vec<JsonValue>, key: &str) -> (r: Vec<JsonValue>)
    ensures
        json_views(r@) == parent_keys(json_views(items@), key@),
{
    let ghost iv = json_views(items@);
    let mut r: Vec<JsonValue> = Vec::new();
    let mut i: usize = 0;
    assert(iv.take(0) =~= Seq::<Json>::empty());
    assert(json_views(r@) =~= Seq::<Json>::empty());
    while i < items.len()
        invariant
            iv == json_views(items@),
            i <= items@.len(),
            json_views(r@) == parent_keys(iv.take(i as int), key@),
        decreases items@.len() - i,
    {
        proof {
            assert(iv.take(i as int + 1).drop_last() =~= iv.take(i as int));
            assert(iv.take(i as int + 1).last() == items@[i as int]@);
        }
        match items[i].get(key) {
            Some(v) => {
                if !v.is_null() {
                    let c = v.copy();
                    let ghost rv = r@;
                    r.push(c);
                    assert(json_views(r@) =~= json_views(rv).push(c@));
                }
            },
            None => {},
        }
        i = i + 1;
    }
    assert(iv.take(items@.len() as int) =~= iv);
    r
}

/// The quoted names of the plain fields among the children.
pub open spec fn field_cols(d: Dialect, cs: Seq<ChildSpec>) -> Seq<Seq<char>>
    decreases cs.len(),
{
    if cs.len() == 0 {
        seq![]
    } else {
        let r = field_cols(d, cs.drop_last());
        match cs.last() {
            ChildSpec::Field(name, _) => r.push(quote(d, name)),
            _ => r,
        }
    }
}

/// The select list of a one-to-many sub-query: all columns when no plain
/// field is selected, else the fields, with the foreign key first when it
/// is not among them.
pub open spec fn o2m_select(d: Dialect, rel: RelNodeSpec) -> Seq<char> {
    let cols = field_cols(d, rel.children);
    let fk = quote(d, rel.field_key);
    if cols.len() == 0 {
        "*"@
    } else if cols.contains(fk) {
        join(cols, ", "@)
    } else {
        fk + ", "@ + join(cols, ", "@)
    }
}

/// One ORDER BY term of a sub-query (columns are not qualified).
pub open spec fn o2m_sort_clause(d: Dialect, s: Seq<char>) -> Seq<char> {
    if s.len() > 0 && s[0] == '-' {
        quote(d, s.skip(1)) + " DESC"@
    } else {
        quote(d, s) + " ASC"@
    }
}

/// The sub-query that fetches the children of a one-to-many relation for
/// the parent keys `pks` (bound as `$1..$n`), with the relation's filter
/// (parameters from `n + 1`), sort, and limit times the number of parents.
pub open spec fn o2m_sql(d: Dialect, rel: RelNodeSpec, pks: Seq<Json>) -> (Seq<char>, Seq<SqlSpec>) {
    let n = pks.len();
    let s1 = "SELECT "@ + o2m_select(d, rel) + " FROM "@ + quote(d, rel.name) + " WHERE "@ + quote(d, rel.field_key)
        + " IN ("@ + join(params_from(1, n), ", "@) + ")"@;
    let b1 = Seq::new(n, |i: int| sql_of(pks[i]));
    let (s2, b2) = match rel.query.filter {
        Some(f) => {
            let (w, b, _m) = filter_sql(d, rel.name, f, n + 1);
            if w.len() > 0 { (s1 + " AND "@ + w, b1 + b) } else { (s1, b1) }
        },
        None => (s1, b1),
    };
    let s3 = match rel.query.sort {
        Some(srt) => s2 + " ORDER BY "@ + join(Seq::new(srt.len(), |i: int| o2m_sort_clause(d, srt[i])), ", "@),
        None => s2,
    };
    let s4 = match rel.query.limit {
        Some(l) => if l >= 0 { s3 + " LIMIT "@ + signed_decimal(l * n) } else { s3 },
        None => s3,
    };
    (s4, b2)
}

/// Builds the sub-query of a one-to-many relation for the given parent keys.
pub fn build_o2m_query(rel: &RelationalNode, parent_pks: &Vec<JsonValue>, d: Dialect) -> (r: Result<(String, Vec<SqlValue>), RunAstError>)
    requires
        parent_pks@.len() + 1 + query_filter_width(rel.query.view()) <= usize::MAX,
        parent_pks@.len() <= i64::MAX,
        (rel.query.limit matches Some(l) && l >= 0) ==> rel.query.limit->Some_0 * parent_pks@.len() <= i64::MAX,
    ensures
        r is Ok,
        ({
            let (s, b) = o2m_sql(d, rel.view(), json_views(parent_pks@));
            &&& r->Ok_0.0@ == s
            &&& sql_views(r->Ok_0.1@) == b
        }),
{
    let ghost rv = rel.view();
    let ghost cs = rv.children;
    proof {
        lemma_rel_children(*rel);
    }
    let mut cols: Vec<String> = Vec::new();
    let mut k: usize = 0;
    assert(cs.take(0) =~= Seq::<ChildSpec>::empty());
    assert(views(cols@) =~= Seq::<Seq<char>>::empty());
    while k < rel.children.len()
        invariant
            rv == rel.view(),
            cs == rv.children,
            cs == child_views(rel.children@),
            k <= rel.children@.len(),
            views(cols@) == field_cols(d, cs.take(k as int)),
        decreases rel.children@.len() - k,
    {
        proof {
            assert(cs.take(k as int + 1).drop_last() =~= cs.take(k as int));
            assert(cs.take(k as int + 1).last() == cs[k as int]);
        }
        match &rel.children[k] {
            ChildNode::Field(f) => {
                let q = d.quote_identifier(f.name.as_str());
                let ghost cv = cols@;
                cols.push(q);
                assert(views(cols@) =~= views(cv).push(q@));
            },
            _ => {},
        }
        k = k + 1;
    }
    assert(cs.take(rel.children@.len() as int) =~= cs);
    let fk = d.quote_identifier(rel.field_key.as_str());
    let select = if cols.len() == 0 {
        String::from_str("*")
    } else {
        let has_fk = contains_string(&cols, fk.as_str());
        let joined = join_strings(&cols, ", ");
        if has_fk {
            joined
        } else {
            let mut t = fk.clone();
            t.append(", ");
            t.append(joined.as_str());
            t
        }
    };
    let n = parent_pks.len();
    let mut ph: Vec<String> = Vec::new();
    let mut binds: Vec<SqlValue> = Vec::new();
    let mut i: usize = 0;
    while i < n
        invariant
            n == parent_pks@.len(),
            i <= n,
            views(ph@) =~= params_from(1, i as nat),
            sql_views(binds@) =~= Seq::new(i as nat, |t: int| sql_of(parent_pks@[t]@)),
        decreases n - i,
    {
        let mut p = String::from_str("$");
        crate::text::push_decimal(&mut p, (i + 1) as u64);
        let b = value_to_sql_value(&parent_pks[i]);
        let ghost pv = ph@;
        let ghost bv = binds@;
        ph.push(p);
        binds.push(b);
        proof {
            assert(views(ph@) =~= views(pv).push(p@));
            assert(sql_views(binds@) =~= sql_views(bv).push(b.view()));
        }
        i = i + 1;
    }
    let mut sql = String::from_str("SELECT ");
    sql.append(select.as_str());
    sql.append(" FROM ");
    sql.append(d.quote_identifier(rel.name.as_str()).as_str());
    sql.append(" WHERE ");
    sql.append(fk.as_str());
    sql.append(" IN (");
    sql.append(join_strings(&ph, ", ").as_str());
    sql.append(")");
    proof {
        assert(Seq::new(n as nat, |t: int| sql_of(parent_pks@[t]@)) =~= Seq::new(json_views(parent_pks@).len(), |t: int| sql_of(json_views(parent_pks@)[t])));
    }
    match &rel.query.filter {
        Some(f) => {
            match build_filter_sql(f, d, rel.name.as_str(), n + 1) {
                Ok((w, mut b, _m)) => {
                    if !w.as_str().is_empty() {
                        sql.append(" AND ");
                        sql.append(w.as_str());
                        let ghost bv = binds@;
                        let ghost bb = b@;
                        binds.append(&mut b);
                        assert(sql_views(binds@) =~= sql_views(bv) + sql_views(bb));
                    }
                },
                Err(e) => {
                    return Err(e);
                },
            }
        },
        None => {},
    }
    match &rel.query.sort {
        Some(sorts) => {
            let mut clauses: Vec<String> = Vec::new();
            let mut k: usize = 0;
            while k < sorts.len()
                invariant
                    k <= sorts@.len(),
                    views(clauses@) =~= Seq::new(k as nat, |t: int| o2m_sort_clause(d, sorts@[t]@)),
                decreases sorts@.len() - k,
            {
                let cs = chars_of(sorts[k].as_str());
                let len = cs.len();
                let c = if len > 0 && cs[0] == '-' {
                    let field = string_of(&sub_chars(&cs, 1, len));
                    assert(field@ =~= sorts@[k as int]@.skip(1));
                    let mut c = d.quote_identifier(field.as_str());
                    c.append(" DESC");
                    c
                } else {
                    let mut c = d.quote_identifier(sorts[k].as_str());
                    c.append(" ASC");
                    c
                };
                let ghost cv = clauses@;
                clauses.push(c);
                assert(views(clauses@) =~= views(cv).push(c@));
                k = k + 1;
            }
            proof {
                let sv = views(sorts@);
                assert(Seq::new(sorts@.len(), |t: int| o2m_sort_clause(d, sorts@[t]@)) =~= Seq::new(sv.len(), |t: int| o2m_sort_clause(d, sv[t])));
            }
            sql.append(" ORDER BY ");
            sql.append(join_strings(&clauses, ", ").as_str());
        },
        None => {},
    }
    match rel.query.limit {
        Some(l) => {
            if l >= 0 {
                sql.append(" LIMIT ");
                push_signed_decimal(&mut sql, l * (n as i64));
            }
        },
        None => {},
    }
    Ok((sql, binds))
}

/// The child rows whose foreign key `fk` is keyed by `key`, as objects.
pub open spec fn children_for(rows: Seq<Seq<(Seq<char>, Json)>>, fk: Seq<char>, key: Seq<char>) -> Seq<Json>
    decreases rows.len(),
{
    if rows.len() == 0 {
        seq![]
    } else {
        let r = children_for(rows.drop_last(), fk, key);
        if value_text(member_or_null(Json::Obj(rows.last()), fk)) == key { r.push(Json::Obj(rows.last())) } else { r }
    }
}

/// Whether an object item among `items` is keyed by `key`.
pub open spec fn claimed(items: Seq<Json>, pk: Seq<char>, key: Seq<char>) -> bool {
    exists|j: int| 0 <= j < items.len() && (#[trigger] items[j]) is Obj && value_text(member_or_null(items[j], pk)) == key
}

/// The parent items with their one-to-many children attached under
/// `name`: each object item gets the child rows keyed like its primary key
/// (an empty list when an earlier item already took that key); other items
/// stay as they are.
pub open spec fn merged_item(items: Seq<Json>, i: int, name: Seq<char>, pk: Seq<char>, fk: Seq<char>, rows: Seq<Seq<(Seq<char>, Json)>>) -> Json {
    match items[i] {
        Json::Obj(m) => {
            let key = value_text(member_or_null(items[i], pk));
            let children = if claimed(items.take(i), pk, key) { seq![] } else { children_for(rows, fk, key) };
            Json::Obj(set_entry(m, name, Json::Arr(children)))
        },
        _ => items[i],
    }
}

/// Views of child rows.
pub open spec fn row_views(rows: Seq<Vec<(String, JsonValue)>>) -> Seq<Seq<(Seq<char>, Json)>> {
    Seq::new(rows.len(), |i: int| members_view(rows[i]@))
}

/// The child rows keyed by `key`, as objects.
fn children_for_exec(rows: &Vec<Vec<(String, JsonValue)>>, fk: &str, key: &str) -> (r: Vec<JsonValue>)
    ensures
        json_views(r@) == children_for(row_views(rows@), fk@, key@),
{
    let ghost rv = row_views(rows@);
    let mut r: Vec<JsonValue> = Vec::new();
    let mut i: usize = 0;
    assert(rv.take(0) =~= Seq::<Seq<(Seq<char>, Json)>>::empty());
    assert(json_views(r@) =~= Seq::<Json>::empty());
    while i < rows.len()
        invariant
            rv == row_views(rows@),
            i <= rows@.len(),
            json_views(r@) == children_for(rv.take(i as int), fk@, key@),
        decreases rows@.len() - i,
    {
        proof {
            assert(rv.take(i as int + 1).drop_last() =~= rv.take(i as int));
            assert(rv.take(i as int + 1).last() == members_view(rows@[i as int]@));
        }
        let m = copy_members(&rows[i]);
        proof {
            lemma_object_view(&m);
        }
        let row = JsonValue::Object(m);
        let k = match row.get(fk) {
            Some(v) => value_to_string(v),
            None => value_to_string(&JsonValue::Null),
        };
        if crate::text::str_eq(k.as_str(), key) {
            let ghost before = r@;
            r.push(row);
            assert(json_views(r@) =~= json_views(before).push(Json::Obj(rv[i as int])));
        }
        i = i + 1;
    }
    assert(rv.take(rows@.len() as int) =~= rv);
    r
}

/// A copy of an object's members.
fn copy_members(m: &Vec<(String, JsonValue)>) -> (r: Vec<(String, JsonValue)>)
    ensures
        members_view(r@) == members_view(m@),
{
    let mut out: Vec<(String, JsonValue)> = Vec::new();
    let mut i: usize = 0;
    while i < m.len()
        invariant
            i <= m@.len(),
            out@.len() == i,
            forall|k: int| #![trigger out@[k]] 0 <= k < i ==> out@[k].0@ == m@[k].0@ && out@[k].1@ == m@[k].1@,
        decreases m@.len() - i,
    {
        out.push((m[i].0.clone(), m[i].1.copy()));
        i = i + 1;
    }
    assert(members_view(out@) =~= members_view(m@));
    out
}

/// Attaches the one-to-many children to the parent items under `name`.
pub fn merge_o2m_children(items: &mut Vec<JsonValue>, name: &str, pk: &str, fk: &str, rows: &Vec<Vec<(String, JsonValue)>>)
    ensures
        final(items)@.len() == old(items)@.len(),
        forall|i: int| 0 <= i < old(items)@.len() ==> #[trigger] final(items)@[i]@ == merged_item(json_views(old(items)@), i, name@, pk@, fk@, row_views(rows@)),
{
    let ghost iv = json_views(items@);
    let ghost orig = items@;
    let mut taken: Vec<String> = Vec::new();
    let mut i: usize = 0;
    while i < items.len()
        invariant
            iv == json_views(orig),
            items@.len() == orig.len(),
            i <= items@.len(),
            forall|t: int| 0 <= t < i ==> #[trigger] items@[t]@ == merged_item(iv, t, name@, pk@, fk@, row_views(rows@)),
            forall|t: int| i <= t < items@.len() ==> #[trigger] items@[t] == orig[t],
            forall|key: Seq<char>| #[trigger] views(taken@).contains(key) <==> claimed(iv.take(i as int), pk@, key),
        decreases items@.len() - i,
    {
        let ghost item_v = iv[i as int];
        let ghost t0 = taken@;
        assert(items@[i as int]@ == item_v);
        let key = match items[i].get(pk) {
            Some(v) => value_to_string(v),
            None => value_to_string(&JsonValue::Null),
        };
        let ghost key_v = key@;
        let is_obj = match &items[i] {
            JsonValue::Object(_) => true,
            _ => false,
        };
        proof {
            assert forall|k2: Seq<char>| claimed(iv.take(i as int + 1), pk@, k2) <==> (claimed(iv.take(i as int), pk@, k2) || (is_obj && k2 == key_v)) by {
                let a = iv.take(i as int + 1);
                let b = iv.take(i as int);
                if claimed(a, pk@, k2) {
                    let j = choose|j: int| 0 <= j < a.len() && (#[trigger] a[j]) is Obj && value_text(member_or_null(a[j], pk@)) == k2;
                    if j < i {
                        assert(b[j] == a[j]);
                    }
                }
                if claimed(b, pk@, k2) {
                    let j = choose|j: int| 0 <= j < b.len() && (#[trigger] b[j]) is Obj && value_text(member_or_null(b[j], pk@)) == k2;
                    assert(a[j] == b[j]);
                }
                if is_obj && k2 == key@ {
                    assert(a[i as int] == item_v);
                }
            }
        }
        if is_obj {
            let already = contains_string(&taken, key.as_str());
            let children = if already {
                let v: Vec<JsonValue> = Vec::new();
                assert(json_views(v@) =~= Seq::<Json>::empty());
                v
            } else {
                children_for_exec(rows, fk, key.as_str())
            };
            proof {
                lemma_array_view(&children);
            }
            let arr = JsonValue::Array(children);
            let new_item = match &items[i] {
                JsonValue::Object(m) => {
                    let mut m2 = copy_members(m);
                    set_member(&mut m2, String::from_str(name), arr);
                    proof {
                        lemma_object_view(&m2);
                        lemma_object_view(m);
                    }
                    JsonValue::Object(m2)
                },
                other => other.copy(),
            };
            items.set(i, new_item);
            if !already {
                let ghost tv = taken@;
                let ghost kv = key@;
                taken.push(key);
                assert(views(taken@) =~= views(tv).push(kv));
                assert forall|k2: Seq<char>| views(taken@).contains(k2) <==> (views(tv).contains(k2) || k2 == kv) by {
                    if views(taken@).contains(k2) {
                        let t = choose|t: int| 0 <= t < views(taken@).len() && views(taken@)[t] == k2;
                        if t < tv.len() {
                            assert(views(tv)[t] == k2);
                        }
                    }
                    if views(tv).contains(k2) {
                        let t = choose|t: int| 0 <= t < views(tv).len() && views(tv)[t] == k2;
                        assert(views(taken@)[t] == k2);
                    }
                    if k2 == kv {
                        assert(views(taken@)[tv.len() as int] == k2);
                    }
                }
            }
        }
        proof {
            assert forall|k2: Seq<char>| #[trigger] views(taken@).contains(k2) <==> claimed(iv.take(i as int + 1), pk@, k2) by {
                assert(claimed(iv.take(i as int + 1), pk@, k2) <==> (claimed(iv.take(i as int), pk@, k2) || (is_obj && k2 == key_v)));
                assert(views(t0).contains(k2) <==> claimed(iv.take(i as int), pk@, k2));
                if !is_obj {
                    assert(taken@ == t0);
                }
            }
        }
        i = i + 1;
    }
}

/// Output field `k` from the direct mappings: the value of the last mapping
/// to `k` whose column, or failing that `k` itself, is in the row.
pub open spec fn direct_value(cols: Seq<ColSpec>, row: Seq<(Seq<char>, Json)>, k: Seq<char>) -> Option<Json>
    decreases cols.len(),
{
    if cols.len() == 0 {
        None
    } else {
        match cols.last() {
            ColSpec::Direct(c, o) => {
                if o == k && obj_get(row, c) is Some {
                    obj_get(row, c)
                } else if o == k && obj_get(row, o) is Some {
                    obj_get(row, o)
                } else {
                    direct_value(cols.drop_last(), row, k)
                }
            },
            _ => direct_value(cols.drop_last(), row, k),
        }
    }
}

/// Field `f` of the joined relation `rel`: the column of the last mapping to
/// it (`null` when the row lacks that column).
pub open spec fn nested_value(cols: Seq<ColSpec>, row: Seq<(Seq<char>, Json)>, rel: Seq<char>, f: Seq<char>) -> Option<Json>
    decreases cols.len(),
{
    if cols.len() == 0 {
        None
    } else {
        match cols.last() {
            ColSpec::Nested(c, r, fl) => {
                if r == rel && fl == f {
                    Some(member_or_null(Json::Obj(row), c))
                } else {
                    nested_value(cols.drop_last(), row, rel, f)
                }
            },
            _ => nested_value(cols.drop_last(), row, rel, f),
        }
    }
}

/// Whether a mapping nests a field under relation `rel`.
pub open spec fn nests_under(c: ColSpec, rel: Seq<char>) -> bool {
    c matches ColSpec::Nested(_, r, _) && r == rel
}

/// Whether some mapping nests a field under relation `rel`.
pub open spec fn is_relation(cols: Seq<ColSpec>, rel: Seq<char>) -> bool {
    exists|i: int| 0 <= i < cols.len() && nests_under(#[trigger] cols[i], rel)
}

/// The result column a mapping reads.
pub open spec fn col_column(c: ColSpec) -> Seq<char> {
    match c {
        ColSpec::Direct(col, _) => col,
        ColSpec::Nested(col, _, _) => col,
    }
}

/// Whether some mapping reads column `c`.
pub open spec fn maps_column(cols: Seq<ColSpec>, c: Seq<char>) -> bool {
    exists|i: int| 0 <= i < cols.len() && col_column(#[trigger] cols[i]) == c
}

/// Whether every field of relation `rel` is null (no row was joined).
pub open spec fn relation_all_null(cols: Seq<ColSpec>, row: Seq<(Seq<char>, Json)>, rel: Seq<char>) -> bool {
    forall|f: Seq<char>| #[trigger] nested_value(cols, row, rel, f) matches Some(v) ==> v is Null
}

/// What output member `rel` of a relation holds: `null` when all its fields
/// are null, else an object of exactly its fields.
pub open spec fn relation_member(m: Option<Json>, cols: Seq<ColSpec>, row: Seq<(Seq<char>, Json)>, rel: Seq<char>) -> bool {
    if relation_all_null(cols, row, rel) {
        m == Some(Json::Null)
    } else {
        &&& m matches Some(Json::Obj(fm))
        &&& distinct_keys(m->Some_0->Obj_0)
        &&& forall|f: Seq<char>| #[trigger] obj_get(m->Some_0->Obj_0, f) == nested_value(cols, row, rel, f)
    }
}

/// What output member `k` holds after the direct fields and the relations
/// are in.
pub open spec fn mapped_member(m: Option<Json>, cols: Seq<ColSpec>, row: Seq<(Seq<char>, Json)>, k: Seq<char>) -> bool {
    if is_relation(cols, k) {
        relation_member(m, cols, row, k)
    } else {
        m == direct_value(cols, row, k)
    }
}

/// The nested output object of a row: the direct fields, each joined relation
/// as an object of its fields (`null` when all of them are null), and the
/// row's other columns, which no mapping reads, under their own names.
pub open spec fn restructured(r: Json, cols: Seq<ColSpec>, row: Seq<(Seq<char>, Json)>) -> bool {
    &&& r is Obj
    &&& distinct_keys(r->Obj_0)
    &&& forall|k: Seq<char>| {
        let m = #[trigger] obj_get(r->Obj_0, k);
        if is_relation(cols, k) || direct_value(cols, row, k) is Some {
            mapped_member(m, cols, row, k)
        } else if !maps_column(cols, k) {
            m == obj_get(row, k)
        } else {
            m is None
        }
    }
}

/// The fields of relation `rel`, each from the last mapping to it.
fn relation_fields(row: &Vec<(String, JsonValue)>, cols: &Vec<ColumnMapping>, rel: &str) -> (r: Vec<(String, JsonValue)>)
    ensures
        distinct_keys(members_view(r@)),
        forall|f: Seq<char>| #[trigger] obj_get(members_view(r@), f) == nested_value(col_views(cols@), members_view(row@), rel@, f),
{
    let ghost cv = col_views(cols@);
    let ghost rv = members_view(row@);
    let mut out: Vec<(String, JsonValue)> = Vec::new();
    let mut i: usize = 0;
    assert(distinct_keys(members_view(out@)));
    while i < cols.len()
        invariant
            cv == col_views(cols@),
            rv == members_view(row@),
            i <= cols@.len(),
            distinct_keys(members_view(out@)),
            forall|f: Seq<char>| #[trigger] obj_get(members_view(out@), f) == nested_value(cv.take(i as int), rv, rel@, f),
        decreases cols@.len() - i,
    {
        proof {
            assert(cv.take(i as int + 1).drop_last() =~= cv.take(i as int));
            assert(cv.take(i as int + 1).last() == cv[i as int]);
        }
        match &cols[i] {
            ColumnMapping::Nested { column, relation, field } => {
                if crate::text::str_eq(relation.as_str(), rel) {
                    let v = match member_get(row, column.as_str()) {
                        Some(x) => x.copy(),
                        None => JsonValue::Null,
                    };
                    proof {
                        lemma_object_view(row);
                    }
                    let ghost before = members_view(out@);
                    let ghost fv = field@;
                    set_member(&mut out, field.clone(), v);
                    proof {
                        lemma_set_entry_distinct(before, fv, v@);
                        assert forall|f: Seq<char>| #[trigger] obj_get(members_view(out@), f) == nested_value(cv.take(i as int + 1), rv, rel@, f) by {
                            lemma_set_entry_get(before, fv, v@, f);
                        }
                    }
                }
            },
            _ => {},
        }
        i = i + 1;
    }
    assert(cv.take(cols@.len() as int) =~= cv);
    out
}

/// Whether some mapping reads column `c`.
fn maps_column_exec(cols: &Vec<ColumnMapping>, c: &str) -> (r: bool)
    ensures
        r == maps_column(col_views(cols@), c@),
{
    let ghost cv = col_views(cols@);
    let mut i: usize = 0;
    while i < cols.len()
        invariant
            cv == col_views(cols@),
            i <= cols@.len(),
            forall|t: int| 0 <= t < i ==> col_column(#[trigger] cv[t]) != c@,
        decreases cols@.len() - i,
    {
        let col = match &cols[i] {
            ColumnMapping::Direct { column, .. } => column,
            ColumnMapping::Nested { column, .. } => column,
        };
        if crate::text::str_eq(col.as_str(), c) {
            assert(col_column(cv[i as int]) == c@);
            return true;
        }
        i = i + 1;
    }
    false
}

/// Whether every member of an object is null.
fn all_members_null(m: &Vec<(String, JsonValue)>) -> (r: bool)
    ensures
        r == forall|j: int| 0 <= j < m@.len() ==> (#[trigger] m@[j]).1@ is Null,
{
    let mut i: usize = 0;
    while i < m.len()
        invariant
            i <= m@.len(),
            forall|j: int| 0 <= j < i ==> (#[trigger] m@[j]).1@ is Null,
        decreases m@.len() - i,
    {
        if !m[i].1.is_null() {
            return false;
        }
        i = i + 1;
    }
    true
}

/// Turns a flat result row into the nested output object: direct columns
/// become fields, `relation__field` columns of each joined relation become an
/// object under the relation's name (`null` when all of them are null), and
/// the row's other columns are kept under their own names.
pub fn restructure_row(row: &Vec<(String, JsonValue)>, column_map: &Vec<ColumnMapping>) -> (r: JsonValue)
    ensures
        restructured(r@, col_views(column_map@), members_view(row@)),
{
    let ghost cv = col_views(column_map@);
    let ghost rv = members_view(row@);
    let mut out: Vec<(String, JsonValue)> = Vec::new();
    let mut i: usize = 0;
    assert(distinct_keys(members_view(out@)));
    while i < column_map.len()
        invariant
            cv == col_views(column_map@),
            rv == members_view(row@),
            i <= column_map@.len(),
            distinct_keys(members_view(out@)),
            forall|k: Seq<char>| #[trigger] obj_get(members_view(out@), k) == direct_value(cv.take(i as int), rv, k),
        decreases column_map@.len() - i,
    {
        proof {
            assert(cv.take(i as int + 1).drop_last() =~= cv.take(i as int));
            assert(cv.take(i as int + 1).last() == cv[i as int]);
        }
        match &column_map[i] {
            ColumnMapping::Direct { column, output } => {
                let found = match member_get(row, column.as_str()) {
                    Some(x) => Some(x),
                    None => member_get(row, output.as_str()),
                };
                match found {
                    Some(x) => {
                        let v = x.copy();
                        let ghost before = members_view(out@);
                        let ghost ov = output@;
                        set_member(&mut out, output.clone(), v);
                        proof {
                            lemma_set_entry_distinct(before, ov, v@);
                            assert forall|k: Seq<char>| #[trigger] obj_get(members_view(out@), k) == direct_value(cv.take(i as int + 1), rv, k) by {
                                lemma_set_entry_get(before, ov, v@, k);
                            }
                        }
                    },
                    None => {},
                }
            },
            _ => {},
        }
        i = i + 1;
    }
    assert(cv.take(column_map@.len() as int) =~= cv);
    let mut done: Vec<String> = Vec::new();
    let mut i: usize = 0;
    while i < column_map.len()
        invariant
            cv == col_views(column_map@),
            rv == members_view(row@),
            i <= column_map@.len(),
            distinct_keys(members_view(out@)),
            forall|k: Seq<char>| #[trigger] views(done@).contains(k) <==> is_relation(cv.take(i as int), k),
            forall|k: Seq<char>| #![trigger obj_get(members_view(out@), k)]
                if is_relation(cv.take(i as int), k) {
                    relation_member(obj_get(members_view(out@), k), cv, rv, k)
                } else {
                    obj_get(members_view(out@), k) == direct_value(cv, rv, k)
                },
        decreases column_map@.len() - i,
    {
        let ghost t0 = cv.take(i as int);
        let ghost t1 = cv.take(i as int + 1);
        proof {
            assert forall|k: Seq<char>| is_relation(t1, k) <==> (is_relation(t0, k) || nests_under(cv[i as int], k)) by {
                if is_relation(t1, k) {
                    let j = choose|j: int| 0 <= j < t1.len() && nests_under(#[trigger] t1[j], k);
                    if j < i {
                        assert(t0[j] == t1[j]);
                    }
                }
                if is_relation(t0, k) {
                    let j = choose|j: int| 0 <= j < t0.len() && nests_under(#[trigger] t0[j], k);
                    assert(t1[j] == t0[j]);
                }
                if nests_under(cv[i as int], k) {
                    assert(t1[i as int] == cv[i as int]);
                }
            }
        }
        match &column_map[i] {
            ColumnMapping::Nested { relation, .. } => {
                if !contains_string(&done, relation.as_str()) {
                    let fields = relation_fields(row, column_map, relation.as_str());
                    let all_null = all_members_null(&fields);
                    let ghost fm = members_view(fields@);
                    let ghost relv = relation@;
                    proof {
                        if all_null {
                            assert forall|f: Seq<char>| #[trigger] nested_value(cv, rv, relv, f) matches Some(v) ==> v is Null by {
                                if obj_get(fm, f) is Some {
                                    lemma_obj_get_some(fm, f);
                                    let j = choose|j: int| 0 <= j < fm.len() && fm[j].0 == f && Some(fm[j].1) == obj_get(fm, f);
                                    assert(fields@[j].1@ is Null);
                                }
                            }
                        } else {
                            let j = choose|j: int| 0 <= j < fields@.len() && !((#[trigger] fields@[j]).1@ is Null);
                            lemma_obj_get_distinct(fm, j);
                            assert(nested_value(cv, rv, relv, fm[j].0) == Some(fm[j].1));
                        }
                    }
                    let v = if all_null {
                        JsonValue::Null
                    } else {
                        proof {
                            lemma_object_view(&fields);
                        }
                        JsonValue::Object(fields)
                    };
                    let ghost before = members_view(out@);
                    set_member(&mut out, relation.clone(), v);
                    proof {
                        lemma_set_entry_distinct(before, relv, v@);
                        assert forall|k: Seq<char>| #![trigger obj_get(members_view(out@), k)]
                            if is_relation(t1, k) {
                                relation_member(obj_get(members_view(out@), k), cv, rv, k)
                            } else {
                                obj_get(members_view(out@), k) == direct_value(cv, rv, k)
                            } by {
                            lemma_set_entry_get(before, relv, v@, k);
                        }
                    }
                    let ghost dv = done@;
                    done.push(relation.clone());
                    proof {
                        assert(views(done@) =~= views(dv).push(relv));
                        assert forall|k: Seq<char>| #[trigger] views(done@).contains(k) <==> is_relation(t1, k) by {
                            if views(done@).contains(k) {
                                let t = choose|t: int| 0 <= t < views(done@).len() && views(done@)[t] == k;
                                if t < dv.len() {
                                    assert(views(dv)[t] == k);
                                }
                            }
                            if views(dv).contains(k) {
                                let t = choose|t: int| 0 <= t < views(dv).len() && views(dv)[t] == k;
                                assert(views(done@)[t] == k);
                            }
                            if k == relv {
                                assert(views(done@)[dv.len() as int] == k);
                            }
                        }
                    }
                }
            },
            _ => {},
        }
        i = i + 1;
    }
    assert(cv.take(column_map@.len() as int) =~= cv);
    let mut j: usize = 0;
    while j < row.len()
        invariant
            cv == col_views(column_map@),
            rv == members_view(row@),
            j <= row@.len(),
            distinct_keys(members_view(out@)),
            forall|k: Seq<char>| {
                let m = #[trigger] obj_get(members_view(out@), k);
                if is_relation(cv, k) || direct_value(cv, rv, k) is Some {
                    mapped_member(m, cv, rv, k)
                } else if !maps_column(cv, k) {
                    m == obj_get(rv.take(j as int), k)
                } else {
                    m is None
                }
            },
        decreases row@.len() - j,
    {
        let ghost before = members_view(out@);
        proof {
            assert(rv.take(j as int + 1) =~= rv.take(j as int).push(rv[j as int]));
            assert forall|k: Seq<char>| #[trigger] obj_get(rv.take(j as int + 1), k) == (if obj_get(rv.take(j as int), k) is Some { obj_get(rv.take(j as int), k) } else if rv[j as int].0 == k { Some(rv[j as int].1) } else { None }) by {
                lemma_obj_get_push(rv.take(j as int), rv[j as int].0, rv[j as int].1, k);
            }
        }
        let key = &row[j].0;
        let present = member_get(&out, key.as_str()).is_some();
        if !present && !maps_column_exec(column_map, key.as_str()) {
            let v = row[j].1.copy();
            let ghost kv = key@;
            out.push((key.clone(), v));
            proof {
                assert(members_view(out@) =~= before.push((kv, v@)));
                assert forall|t: int| 0 <= t < before.len() implies before[t].0 != kv by {
                    lemma_obj_get_index(before, t);
                }
                assert forall|k: Seq<char>| #[trigger] obj_get(members_view(out@), k) == (if obj_get(before, k) is Some { obj_get(before, k) } else if kv == k { Some(v@) } else { None }) by {
                    lemma_obj_get_push(before, kv, v@, k);
                }
            }
        }
        j = j + 1;
    }
    assert(rv.take(row@.len() as int) =~= rv);
    proof {
        lemma_object_view(&out);
    }
    JsonValue::Object(out)
}

/// The target of an any-to-one reference: the collection named by member
/// `ck` (a non-empty string) and the key in member `fk` (not null).
pub open spec fn a2o_target(item: Json, ck: Seq<char>, fk: Seq<char>) -> Option<(Seq<char>, Json)> {
    match (item.get(ck), item.get(fk)) {
        (Some(Json::Str(c)), Some(v)) => if c.len() > 0 && !(v is Null) { Some((c, v)) } else { None },
        _ => None,
    }
}

/// The target of an item's any-to-one reference, if it has one.
pub fn a2o_target_exec(item: &JsonValue, ck: &str, fk: &str) -> (r: Option<(String, JsonValue)>)
    ensures
        match r {
            Some((c, v)) => a2o_target(item@, ck@, fk@) == Some((c@, v@)),
            None => a2o_target(item@, ck@, fk@) is None,
        },
{
    let c = match item.get(ck) {
        Some(x) => match x.as_str() {
            Some(t) => t,
            None => return None,
        },
        None => return None,
    };
    let v = match item.get(fk) {
        Some(x) => x,
        None => return None,
    };
    if c.is_empty() || v.is_null() {
        None
    } else {
        Some((String::from_str(c), v.copy()))
    }
}

/// Whether an item refers to collection `c`.
pub open spec fn targets(item: Json, ck: Seq<char>, fk: Seq<char>, c: Seq<char>) -> bool {
    a2o_target(item, ck, fk) matches Some(t) && t.0 == c
}

/// Whether some item refers to collection `c`.
pub open spec fn refers_to(items: Seq<Json>, ck: Seq<char>, fk: Seq<char>, c: Seq<char>) -> bool {
    exists|i: int| 0 <= i < items.len() && #[trigger] targets(items[i], ck, fk, c)
}

/// Whether no text occurs twice.
pub open spec fn no_duplicates(v: Seq<Seq<char>>) -> bool {
    forall|i: int, j: int| 0 <= i < j < v.len() ==> v[i] != v[j]
}

/// The collections the items refer to, each once.
pub fn a2o_collections(items: &Vec<JsonValue>, ck: &str, fk: &str) -> (r: Vec<String>)
    ensures
        no_duplicates(views(r@)),
        forall|c: Seq<char>| #[trigger] views(r@).contains(c) <==> refers_to(json_views(items@), ck@, fk@, c),
{
    let ghost iv = json_views(items@);
    let mut r: Vec<String> = Vec::new();
    let mut i: usize = 0;
    while i < items.len()
        invariant
            iv == json_views(items@),
            i <= items@.len(),
            no_duplicates(views(r@)),
            forall|c: Seq<char>| #[trigger] views(r@).contains(c) <==> refers_to(iv.take(i as int), ck@, fk@, c),
        decreases items@.len() - i,
    {
        let ghost t0 = iv.take(i as int);
        let ghost t1 = iv.take(i as int + 1);
        let target = a2o_target_exec(&items[i], ck, fk);
        proof {
            assert(t1[i as int] == iv[i as int]);
            assert(iv[i as int] == items@[i as int]@);
            assert forall|c: Seq<char>| refers_to(t1, ck@, fk@, c) <==> (refers_to(t0, ck@, fk@, c) || targets(iv[i as int], ck@, fk@, c)) by {
                if refers_to(t1, ck@, fk@, c) {
                    let j = choose|j: int| 0 <= j < t1.len() && #[trigger] targets(t1[j], ck@, fk@, c);
                    if j < i {
                        assert(t0[j] == t1[j]);
                    }
                }
                if refers_to(t0, ck@, fk@, c) {
                    let j = choose|j: int| 0 <= j < t0.len() && #[trigger] targets(t0[j], ck@, fk@, c);
                    assert(t1[j] == t0[j]);
                }
            }
        }
        match target {
            Some((c, _v)) => {
                if !contains_string(&r, c.as_str()) {
                    let ghost rv = views(r@);
                    let ghost cv = c@;
                    r.push(c);
                    proof {
                        assert(views(r@) =~= rv.push(cv));
                        assert forall|a: int, b: int| 0 <= a < b < views(r@).len() implies views(r@)[a] != views(r@)[b] by {
                            if b == rv.len() {
                                assert(views(r@)[a] == rv[a]);
                            }
                        }
                        assert forall|x: Seq<char>| #[trigger] views(r@).contains(x) <==> (rv.contains(x) || x == cv) by {
                            if views(r@).contains(x) {
                                let t = choose|t: int| 0 <= t < views(r@).len() && views(r@)[t] == x;
                                if t < rv.len() {
                                    assert(rv[t] == x);
                                }
                            }
                            if rv.contains(x) {
                                let t = choose|t: int| 0 <= t < rv.len() && rv[t] == x;
                                assert(views(r@)[t] == x);
                            }
                            if x == cv {
                                assert(views(r@)[rv.len() as int] == x);
                            }
                        }
                    }
                }
            },
            None => {},
        }
        i = i + 1;
    }
    assert(iv.take(items@.len() as int) =~= iv);
    r
}

/// The keys the items refer to in collection `c`, in order.
pub open spec fn a2o_keys(items: Seq<Json>, ck: Seq<char>, fk: Seq<char>, c: Seq<char>) -> Seq<Json>
    decreases items.len(),
{
    if items.len() == 0 {
        seq![]
    } else {
        let r = a2o_keys(items.drop_last(), ck, fk, c);
        match a2o_target(items.last(), ck, fk) {
            Some(t) => if t.0 == c { r.push(t.1) } else { r },
            None => r,
        }
    }
}

/// The keys the items refer to in collection `c`, in order.
pub fn a2o_keys_exec(items: &Vec<JsonValue>, ck: &str, fk: &str, c: &str) -> (r: Vec<JsonValue>)
    ensures
        json_views(r@) == a2o_keys(json_views(items@), ck@, fk@, c@),
{
    let ghost iv = json_views(items@);
    let mut r: Vec<JsonValue> = Vec::new();
    let mut i: usize = 0;
    assert(iv.take(0) =~= Seq::<Json>::empty());
    assert(json_views(r@) =~= Seq::<Json>::empty());
    while i < items.len()
        invariant
            iv == json_views(items@),
            i <= items@.len(),
            json_views(r@) == a2o_keys(iv.take(i as int), ck@, fk@, c@),
        decreases items@.len() - i,
    {
        proof {
            assert(iv.take(i as int + 1).drop_last() =~= iv.take(i as int));
            assert(iv.take(i as int + 1).last() == items@[i as int]@);
        }
        match a2o_target_exec(&items[i], ck, fk) {
            Some((tc, v)) => {
                if crate::text::str_eq(tc.as_str(), c) {
                    let ghost before = r@;
                    let ghost vv = v@;
                    r.push(v);
                    assert(json_views(r@) =~= json_views(before).push(vv));
                }
            },
            None => {},
        }
        i = i + 1;
    }
    assert(iv.take(items@.len() as int) =~= iv);
    r
}

/// The query that fetches the rows of collection `c` whose `id` is one of
/// `pks` (bound as `$1..$n`).
pub open spec fn a2o_sql(d: Dialect, c: Seq<char>, pks: Seq<Json>) -> (Seq<char>, Seq<SqlSpec>) {
    (
        "SELECT * FROM "@ + quote(d, c) + " WHERE "@ + quote(d, "id"@) + " IN ("@ + join(params_from(1, pks.len()), ", "@) + ")"@,
        Seq::new(pks.len(), |i: int| sql_of(pks[i])),
    )
}

/// Builds the query of an any-to-one relation for one target collection.
pub fn build_a2o_query(c: &str, pks: &Vec<JsonValue>, d: Dialect) -> (r: (String, Vec<SqlValue>))
    requires
        pks@.len() < u64::MAX,
    ensures
        r.0@ == a2o_sql(d, c@, json_views(pks@)).0,
        sql_views(r.1@) == a2o_sql(d, c@, json_views(pks@)).1,
{
    let n = pks.len();
    let mut ph: Vec<String> = Vec::new();
    let mut binds: Vec<SqlValue> = Vec::new();
    let mut i: usize = 0;
    while i < n
        invariant
            n == pks@.len(),
            n < u64::MAX,
            i <= n,
            views(ph@) =~= params_from(1, i as nat),
            sql_views(binds@) =~= Seq::new(i as nat, |t: int| sql_of(pks@[t]@)),
        decreases n - i,
    {
        let mut p = String::from_str("$");
        crate::text::push_decimal(&mut p, (i + 1) as u64);
        let b = value_to_sql_value(&pks[i]);
        let ghost pv = ph@;
        let ghost bv = binds@;
        ph.push(p);
        binds.push(b);
        proof {
            assert(views(ph@) =~= views(pv).push(p@));
            assert(sql_views(binds@) =~= sql_views(bv).push(b.view()));
        }
        i = i + 1;
    }
    let mut sql = String::from_str("SELECT * FROM ");
    sql.append(d.quote_identifier(c).as_str());
    sql.append(" WHERE ");
    sql.append(d.quote_identifier("id").as_str());
    sql.append(" IN (");
    sql.append(join_strings(&ph, ", ").as_str());
    sql.append(")");
    proof {
        assert(Seq::new(n as nat, |t: int| sql_of(pks@[t]@)) =~= Seq::new(json_views(pks@).len(), |t: int| sql_of(json_views(pks@)[t])));
    }
    (sql, binds)
}

/// The last fetched row whose `id` is keyed by `key`.
pub open spec fn last_row_with(rows: Seq<Seq<(Seq<char>, Json)>>, key: Seq<char>) -> Option<Seq<(Seq<char>, Json)>>
    decreases rows.len(),
{
    if rows.len() == 0 {
        None
    } else {
        match obj_get(rows.last(), "id"@) {
            Some(id) => if value_text(id) == key { Some(rows.last()) } else { last_row_with(rows.drop_last(), key) },
            None => last_row_with(rows.drop_last(), key),
        }
    }
}

/// An item after the rows of collection `c` are merged in: an object item
/// that refers to `c` gets the row its key finds under `name`; every other
/// item stays as it is.
pub open spec fn a2o_merged(item: Json, name: Seq<char>, ck: Seq<char>, fk: Seq<char>, c: Seq<char>, rows: Seq<Seq<(Seq<char>, Json)>>) -> Json {
    match (item, a2o_target(item, ck, fk)) {
        (Json::Obj(m), Some(t)) => {
            if t.0 == c {
                match last_row_with(rows, value_text(t.1)) {
                    Some(row) => Json::Obj(set_entry(m, name, Json::Obj(row))),
                    None => item,
                }
            } else {
                item
            }
        },
        _ => item,
    }
}

/// The last row whose `id` is keyed by `key`.
fn last_row_with_exec(rows: &Vec<Vec<(String, JsonValue)>>, key: &str) -> (r: Option<usize>)
    ensures
        match r {
            Some(i) => i < rows@.len() && last_row_with(row_views(rows@), key@) == Some(row_views(rows@)[i as int]),
            None => last_row_with(row_views(rows@), key@) is None,
        },
{
    let ghost rv = row_views(rows@);
    let mut i: usize = rows.len();
    assert(rv.take(i as int) =~= rv);
    while i > 0
        invariant
            rv == row_views(rows@),
            i <= rows@.len(),
            last_row_with(rv, key@) == last_row_with(rv.take(i as int), key@),
        decreases i,
    {
        let ghost t = rv.take(i as int);
        proof {
            assert(t.drop_last() =~= rv.take(i as int - 1));
            assert(t.last() == members_view(rows@[i as int - 1]@));
        }
        match member_get(&rows[i - 1], "id") {
            Some(id) => {
                let k = value_to_string(id);
                if crate::text::str_eq(k.as_str(), key) {
                    return Some(i - 1);
                }
            },
            None => {},
        }
        i = i - 1;
    }
    assert(rv.take(0) =~= Seq::<Seq<(Seq<char>, Json)>>::empty());
    None
}

/// Merges the fetched rows of collection `c` into the items that refer to it.
pub fn merge_a2o(items: &mut Vec<JsonValue>, name: &str, ck: &str, fk: &str, c: &str, rows: &Vec<Vec<(String, JsonValue)>>)
    ensures
        final(items)@.len() == old(items)@.len(),
        forall|i: int| 0 <= i < old(items)@.len() ==> #[trigger] final(items)@[i]@ == a2o_merged(old(items)@[i]@, name@, ck@, fk@, c@, row_views(rows@)),
{
    let ghost orig = items@;
    let mut i: usize = 0;
    while i < items.len()
        invariant
            items@.len() == orig.len(),
            i <= items@.len(),
            forall|t: int| 0 <= t < i ==> #[trigger] items@[t]@ == a2o_merged(orig[t]@, name@, ck@, fk@, c@, row_views(rows@)),
            forall|t: int| i <= t < items@.len() ==> #[trigger] items@[t] == orig[t],
        decreases items@.len() - i,
    {
        let target = a2o_target_exec(&items[i], ck, fk);
        match target {
            Some((tc, v)) => {
                if crate::text::str_eq(tc.as_str(), c) {
                    let key = value_to_string(&v);
                    match last_row_with_exec(rows, key.as_str()) {
                        Some(ri) => {
                            let new_item = match &items[i] {
                                JsonValue::Object(m) => {
                                    let mut m2 = copy_members(m);
                                    let related = copy_members(&rows[ri]);
                                    proof {
                                        lemma_object_view(&related);
                                    }
                                    set_member(&mut m2, String::from_str(name), JsonValue::Object(related));
                                    proof {
                                        lemma_object_view(&m2);
                                        lemma_object_view(m);
                                    }
                                    JsonValue::Object(m2)
                                },
                                other => other.copy(),
                            };
                            items.set(i, new_item);
                        },
                        None => {},
                    }
                }
            },
            None => {},
        }
        i = i + 1;
    }
}

/// The root node an AST run starts from; any other node is refused.
pub fn root_of(ast: &AstNode) -> (r: Result<&RootNode, RunAstError>)
    ensures
        match (ast, r) {
            (AstNode::Root(n), Ok(m)) => m == n,
            (AstNode::Root(_), Err(_)) => false,
            (_, Ok(_)) => false,
            (_, Err(e)) => e matches RunAstError::Ast(m) && m@ == "run_ast expects a Root node"@,
        },
{
    match ast {
        AstNode::Root(n) => Ok(n),
        _ => Err(RunAstError::Ast(String::from_str("run_ast expects a Root node"))),
    }
}

} // verus!
