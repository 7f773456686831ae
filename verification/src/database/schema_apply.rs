//! Bringing a database to a target schema snapshot: the DDL statements that
//! create missing tables, add missing columns, and drop what the target no
//! longer has.

use vstd::prelude::*;
use vstd::string::*;
use crate::json::{json_text, write_json, Json, JsonValue};
use crate::search::{first_where, lemma_first_where_found, lemma_first_where_none};
use crate::text::{chars_of, is_prefix, join, join_strings, starts_with, str_eq, views};
use super::inspector::{collection_names, CollectionInfo, FieldInfo, FieldInfoView};
use super::schema::{field_type_to_sql, spec_field_type_sql};
use super::{quote, Dialect};

verus! {

broadcast use vstd::std_specs::vec::group_vec_axioms;

/// The names of a list of fields.
pub open spec fn field_names(fs: Seq<FieldInfo>) -> Seq<Seq<char>> {
    Seq::new(fs.len(), |i: int| fs[i].field@)
}

/// The SQL type a field's column is declared with: the database type the
/// snapshot records, else the default for its field type.
pub open spec fn column_type(f: FieldInfoView) -> Seq<char> {
    match f.db_type {
        Some(t) => t,
        None => spec_field_type_sql(f.field_type),
    }
}

/// ` NOT NULL` for a column that may not hold null.
pub open spec fn not_null_clause(nullable: bool) -> Seq<char> {
    if nullable { ""@ } else { " NOT NULL"@ }
}

/// The `DEFAULT` clause of a column: a string default quoted, any other
/// non-null default as its JSON text, none for a null or absent default.
pub open spec fn default_clause(dv: Option<Json>) -> Seq<char> {
    match dv {
        Some(Json::Str(s)) => " DEFAULT '"@ + s + "'"@,
        Some(Json::Null) => ""@,
        Some(v) => " DEFAULT "@ + json_text(v),
        None => ""@,
    }
}

/// A column definition of `CREATE TABLE`.
pub open spec fn column_def(d: Dialect, f: FieldInfoView, primary: Seq<char>) -> Seq<char> {
    quote(d, f.field) + " "@ + column_type(f) + not_null_clause(f.nullable) + default_clause(f.default_value)
        + (if f.field == primary { " PRIMARY KEY"@ } else { ""@ })
}

/// The column definitions of a table's fields, in order.
pub open spec fn column_defs(d: Dialect, fs: Seq<FieldInfo>, primary: Seq<char>) -> Seq<Seq<char>> {
    Seq::new(fs.len(), |i: int| column_def(d, fs[i].view(), primary))
}

/// `CREATE TABLE` for a collection.
pub open spec fn create_table(d: Dialect, c: CollectionInfo) -> Seq<char> {
    "CREATE TABLE "@ + quote(d, c.collection@) + " ("@ + join(column_defs(d, c.fields@, c.primary@), ", "@) + ")"@
}

/// `ALTER TABLE .. ADD COLUMN` for a field.
pub open spec fn add_column(d: Dialect, table: Seq<char>, f: FieldInfoView) -> Seq<char> {
    "ALTER TABLE "@ + quote(d, table) + " ADD COLUMN "@ + quote(d, f.field) + " "@ + column_type(f)
        + not_null_clause(f.nullable)
}

/// `DROP TABLE IF EXISTS` for a table.
pub open spec fn drop_table(d: Dialect, table: Seq<char>) -> Seq<char> {
    "DROP TABLE IF EXISTS "@ + quote(d, table)
}

/// `ALTER TABLE .. DROP COLUMN` for a field.
pub open spec fn drop_column(d: Dialect, table: Seq<char>, field: Seq<char>) -> Seq<char> {
    "ALTER TABLE "@ + quote(d, table) + " DROP COLUMN "@ + quote(d, field)
}

/// Matches a name.
pub open spec fn name_pred(name: Seq<char>) -> spec_fn(Seq<char>) -> bool {
    |n: Seq<char>| n == name
}

/// The position of the collection named `name`, if any.
pub open spec fn named(cols: Seq<CollectionInfo>, name: Seq<char>) -> Option<int> {
    first_where(collection_names(cols), name_pred(name))
}

/// One `CREATE TABLE` for each target collection whose name is not among
/// `existing`, in the target's order.
pub open spec fn creations(d: Dialect, existing: Seq<Seq<char>>, target: Seq<CollectionInfo>) -> Seq<Seq<char>>
    decreases target.len(),
{
    if target.len() == 0 {
        seq![]
    } else {
        creations(d, existing, target.drop_last()) + if existing.contains(target.last().collection@) {
            seq![]
        } else {
            seq![create_table(d, target.last())]
        }
    }
}

/// One `ADD COLUMN` to `table` for each field whose name is not among `have`.
pub open spec fn additions(d: Dialect, table: Seq<char>, have: Seq<Seq<char>>, fs: Seq<FieldInfo>) -> Seq<Seq<char>>
    decreases fs.len(),
{
    if fs.len() == 0 {
        seq![]
    } else {
        additions(d, table, have, fs.drop_last()) + if have.contains(fs.last().field@) {
            seq![]
        } else {
            seq![add_column(d, table, fs.last().view())]
        }
    }
}

/// The columns added to the tables that exist on both sides.
pub open spec fn extensions(d: Dialect, current: Seq<CollectionInfo>, target: Seq<CollectionInfo>) -> Seq<Seq<char>>
    decreases target.len(),
{
    if target.len() == 0 {
        seq![]
    } else {
        let t = target.last();
        extensions(d, current, target.drop_last()) + match named(current, t.collection@) {
            Some(k) => additions(d, t.collection@, field_names(current[k].fields@), t.fields@),
            None => seq![],
        }
    }
}

/// One `DROP TABLE` for each current collection that is not among `kept`,
/// except the system tables, whose names begin with `directus_`.
pub open spec fn removals(d: Dialect, kept: Seq<Seq<char>>, current: Seq<CollectionInfo>) -> Seq<Seq<char>>
    decreases current.len(),
{
    if current.len() == 0 {
        seq![]
    } else {
        let n = current.last().collection@;
        removals(d, kept, current.drop_last()) + if !kept.contains(n) && !is_prefix("directus_"@, n) {
            seq![drop_table(d, n)]
        } else {
            seq![]
        }
    }
}

/// One `DROP COLUMN` from `table` for each field whose name is not among `keep`.
pub open spec fn drops(d: Dialect, table: Seq<char>, keep: Seq<Seq<char>>, fs: Seq<FieldInfo>) -> Seq<Seq<char>>
    decreases fs.len(),
{
    if fs.len() == 0 {
        seq![]
    } else {
        drops(d, table, keep, fs.drop_last()) + if keep.contains(fs.last().field@) {
            seq![]
        } else {
            seq![drop_column(d, table, fs.last().field@)]
        }
    }
}

/// The columns dropped from the tables that exist on both sides.
pub open spec fn prunings(d: Dialect, current: Seq<CollectionInfo>, target: Seq<CollectionInfo>) -> Seq<Seq<char>>
    decreases current.len(),
{
    if current.len() == 0 {
        seq![]
    } else {
        let c = current.last();
        prunings(d, current.drop_last(), target) + match named(target, c.collection@) {
            Some(k) => drops(d, c.collection@, field_names(target[k].fields@), c.fields@),
            None => seq![],
        }
    }
}

/// All statements that bring `current` to `target`: creations, then added
/// columns, then dropped tables, then dropped columns.
pub open spec fn apply_statements(d: Dialect, current: Seq<CollectionInfo>, target: Seq<CollectionInfo>) -> Seq<Seq<char>> {
    creations(d, collection_names(current), target) + extensions(d, current, target)
        + removals(d, collection_names(target), current) + prunings(d, current, target)
}

/// No two collections share a name, as in a snapshot keyed by name.
pub open spec fn distinct_collections(s: Seq<CollectionInfo>) -> bool {
    forall|i: int, j: int| 0 <= i < j < s.len() ==> s[i].collection@ != s[j].collection@
}

proof fn lemma_no_creations(d: Dialect, names: Seq<Seq<char>>, t: Seq<CollectionInfo>)
    requires
        forall|i: int| 0 <= i < t.len() ==> names.contains(#[trigger] t[i].collection@),
    ensures
        creations(d, names, t) == Seq::<Seq<char>>::empty(),
    decreases t.len(),
{
    if t.len() > 0 {
        assert forall|i: int| 0 <= i < t.drop_last().len() implies names.contains(#[trigger] t.drop_last()[i].collection@) by {
            assert(t.drop_last()[i] == t[i]);
        }
        lemma_no_creations(d, names, t.drop_last());
        assert(names.contains(t[t.len() - 1].collection@));
    }
}

proof fn lemma_no_removals(d: Dialect, names: Seq<Seq<char>>, t: Seq<CollectionInfo>)
    requires
        forall|i: int| 0 <= i < t.len() ==> names.contains(#[trigger] t[i].collection@),
    ensures
        removals(d, names, t) == Seq::<Seq<char>>::empty(),
    decreases t.len(),
{
    if t.len() > 0 {
        assert forall|i: int| 0 <= i < t.drop_last().len() implies names.contains(#[trigger] t.drop_last()[i].collection@) by {
            assert(t.drop_last()[i] == t[i]);
        }
        lemma_no_removals(d, names, t.drop_last());
        assert(names.contains(t[t.len() - 1].collection@));
    }
}

proof fn lemma_no_additions(d: Dialect, table: Seq<char>, have: Seq<Seq<char>>, fs: Seq<FieldInfo>)
    requires
        forall|i: int| 0 <= i < fs.len() ==> have.contains(#[trigger] fs[i].field@),
    ensures
        additions(d, table, have, fs) == Seq::<Seq<char>>::empty(),
        drops(d, table, have, fs) == Seq::<Seq<char>>::empty(),
    decreases fs.len(),
{
    if fs.len() > 0 {
        assert forall|i: int| 0 <= i < fs.drop_last().len() implies have.contains(#[trigger] fs.drop_last()[i].field@) by {
            assert(fs.drop_last()[i] == fs[i]);
        }
        lemma_no_additions(d, table, have, fs.drop_last());
        assert(have.contains(fs[fs.len() - 1].field@));
    }
}

proof fn lemma_own_fields(fs: Seq<FieldInfo>)
    ensures
        forall|i: int| 0 <= i < fs.len() ==> field_names(fs).contains(#[trigger] fs[i].field@),
{
    assert forall|i: int| 0 <= i < fs.len() implies field_names(fs).contains(#[trigger] fs[i].field@) by {
        assert(field_names(fs)[i] == fs[i].field@);
    }
}

proof fn lemma_named_self(s: Seq<CollectionInfo>, k: int)
    requires
        distinct_collections(s),
        0 <= k < s.len(),
    ensures
        named(s, s[k].collection@) == Some(k),
{
    let names = collection_names(s);
    let p = name_pred(s[k].collection@);
    assert forall|j: int| 0 <= j < k implies !p(#[trigger] names[j]) by {
        assert(names[j] == s[j].collection@);
    }
    lemma_first_where_found(names, p, k);
}

proof fn lemma_no_extensions(d: Dialect, s: Seq<CollectionInfo>, n: int)
    requires
        distinct_collections(s),
        0 <= n <= s.len(),
    ensures
        extensions(d, s, s.take(n)) == Seq::<Seq<char>>::empty(),
        prunings(d, s.take(n), s) == Seq::<Seq<char>>::empty(),
    decreases n,
{
    if n > 0 {
        assert(s.take(n).drop_last() =~= s.take(n - 1));
        lemma_no_extensions(d, s, n - 1);
        let c = s[n - 1];
        assert(s.take(n).last() == c);
        lemma_named_self(s, n - 1);
        lemma_own_fields(c.fields@);
        lemma_no_additions(d, c.collection@, field_names(c.fields@), c.fields@);
    }
}

/// A database whose schema already is the target needs no statement: for a
/// snapshot whose collections have distinct names, bringing it to itself
/// yields nothing to run.
pub proof fn lemma_apply_same_schema_is_empty(d: Dialect, s: Seq<CollectionInfo>)
    requires
        distinct_collections(s),
    ensures
        apply_statements(d, s, s) == Seq::<Seq<char>>::empty(),
{
    let names = collection_names(s);
    assert forall|i: int| 0 <= i < s.len() implies names.contains(#[trigger] s[i].collection@) by {
        assert(names[i] == s[i].collection@);
    }
    lemma_no_creations(d, names, s);
    lemma_no_removals(d, names, s);
    lemma_no_extensions(d, s, s.len() as int);
    assert(s.take(s.len() as int) =~= s);
    assert(apply_statements(d, s, s) =~= Seq::<Seq<char>>::empty());
}

/// The position of the collection named `name`.
fn find_collection(cols: &Vec<CollectionInfo>, name: &str) -> (r: Option<usize>)
    ensures
        match r {
            Some(k) => k < cols@.len() && named(cols@, name@) == Some(k as int),
            None => named(cols@, name@) is None,
        },
{
    let ghost s = collection_names(cols@);
    let ghost p = name_pred(name@);
    let mut i: usize = 0;
    while i < cols.len()
        invariant
            s == collection_names(cols@),
            p == name_pred(name@),
            i <= cols@.len(),
            forall|j: int| 0 <= j < i ==> !p(#[trigger] s[j]),
        decreases cols@.len() - i,
    {
        assert(s[i as int] == cols@[i as int].collection@);
        if str_eq(cols[i].collection.as_str(), name) {
            proof {
                lemma_first_where_found(s, p, i as int);
            }
            return Some(i);
        }
        i = i + 1;
    }
    proof {
        lemma_first_where_none(s, p);
    }
    None
}

/// Whether a collection named `name` is in the list.
fn has_collection(cols: &Vec<CollectionInfo>, name: &str) -> (r: bool)
    ensures
        r == collection_names(cols@).contains(name@),
{
    let ghost s = collection_names(cols@);
    let mut i: usize = 0;
    while i < cols.len()
        invariant
            s == collection_names(cols@),
            i <= cols@.len(),
            forall|j: int| 0 <= j < i ==> s[j] != name@,
        decreases cols@.len() - i,
    {
        assert(s[i as int] == cols@[i as int].collection@);
        if str_eq(cols[i].collection.as_str(), name) {
            return true;
        }
        i = i + 1;
    }
    false
}

/// Whether a field named `name` is in the list.
fn has_field(fs: &Vec<FieldInfo>, name: &str) -> (r: bool)
    ensures
        r == field_names(fs@).contains(name@),
{
    let ghost s = field_names(fs@);
    let mut i: usize = 0;
    while i < fs.len()
        invariant
            s == field_names(fs@),
            i <= fs@.len(),
            forall|j: int| 0 <= j < i ==> s[j] != name@,
        decreases fs@.len() - i,
    {
        assert(s[i as int] == fs@[i as int].field@);
        if str_eq(fs[i].field.as_str(), name) {
            return true;
        }
        i = i + 1;
    }
    false
}

/// Appends the SQL type of a field's column.
fn push_column_type(out: &mut String, f: &FieldInfo)
    ensures
        final(out)@ == old(out)@ + column_type(f.view()),
{
    match &f.db_type {
        Some(t) => {
            out.append(t.as_str());
        },
        None => {
            let t = field_type_to_sql(&f.field_type);
            out.append(t.as_str());
        },
    }
}

/// Appends ` NOT NULL` unless the column may hold null.
fn push_not_null(out: &mut String, nullable: bool)
    ensures
        final(out)@ == old(out)@ + not_null_clause(nullable),
{
    proof {
        reveal_strlit("");
        reveal_strlit(" NOT NULL");
    }
    if !nullable {
        out.append(" NOT NULL");
    } else {
        assert(out@ =~= old(out)@ + ""@);
    }
}

/// Appends the `DEFAULT` clause of a column.
fn push_default(out: &mut String, dv: &Option<JsonValue>)
    ensures
        final(out)@ == old(out)@ + default_clause(match dv {
            Some(v) => Some(v@),
            None => None,
        }),
{
    proof {
        reveal_strlit("");
        reveal_strlit(" DEFAULT '");
        reveal_strlit("'");
        reveal_strlit(" DEFAULT ");
    }
    let ghost o = out@;
    match dv {
        Some(JsonValue::String(s)) => {
            out.append(" DEFAULT '");
            out.append(s.as_str());
            out.append("'");
        },
        Some(JsonValue::Null) => {
            assert(out@ =~= o + ""@);
        },
        Some(v) => {
            out.append(" DEFAULT ");
            write_json(v, out);
        },
        None => {
            assert(out@ =~= o + ""@);
        },
    }
}

/// A column definition of `CREATE TABLE`: quoted name, type, nullability,
/// default, and `PRIMARY KEY` for the primary field.
pub fn column_definition(d: Dialect, f: &FieldInfo, primary: &str) -> (r: String)
    ensures
        r@ == column_def(d, f.view(), primary@),
{
    proof {
        reveal_strlit(" ");
        reveal_strlit("");
        reveal_strlit(" PRIMARY KEY");
    }
    let mut r = d.quote_identifier(f.field.as_str());
    r.append(" ");
    push_column_type(&mut r, f);
    push_not_null(&mut r, f.nullable);
    push_default(&mut r, &f.default_value);
    let ghost before = r@;
    if str_eq(f.field.as_str(), primary) {
        r.append(" PRIMARY KEY");
    } else {
        assert(r@ =~= before + ""@);
    }
    r
}

/// `CREATE TABLE` for a collection, with a column for each of its fields.
pub fn create_table_statement(d: Dialect, c: &CollectionInfo) -> (r: String)
    ensures
        r@ == create_table(d, *c),
{
    proof {
        reveal_strlit("CREATE TABLE ");
        reveal_strlit(" (");
        reveal_strlit(", ");
        reveal_strlit(")");
    }
    let mut defs: Vec<String> = Vec::new();
    let mut i: usize = 0;
    while i < c.fields.len()
        invariant
            i <= c.fields@.len(),
            views(defs@) == column_defs(d, c.fields@, c.primary@).take(i as int),
        decreases c.fields@.len() - i,
    {
        let def = column_definition(d, &c.fields[i], c.primary.as_str());
        let ghost before = views(defs@);
        defs.push(def);
        assert(views(defs@) =~= before.push(column_def(d, c.fields@[i as int].view(), c.primary@)));
        assert(column_defs(d, c.fields@, c.primary@).take(i as int + 1) =~= column_defs(d, c.fields@, c.primary@).take(i as int).push(column_def(d, c.fields@[i as int].view(), c.primary@)));
        i = i + 1;
        assert(views(defs@) =~= column_defs(d, c.fields@, c.primary@).take(i as int));
    }
    assert(column_defs(d, c.fields@, c.primary@).take(i as int) =~= column_defs(d, c.fields@, c.primary@));
    let mut r = String::from_str("CREATE TABLE ");
    let q = d.quote_identifier(c.collection.as_str());
    r.append(q.as_str());
    r.append(" (");
    let body = join_strings(&defs, ", ");
    r.append(body.as_str());
    r.append(")");
    r
}

/// `ALTER TABLE .. ADD COLUMN` for a field.
fn add_column_statement(d: Dialect, table: &str, f: &FieldInfo) -> (r: String)
    ensures
        r@ == add_column(d, table@, f.view()),
{
    proof {
        reveal_strlit("ALTER TABLE ");
        reveal_strlit(" ADD COLUMN ");
        reveal_strlit(" ");
    }
    let mut r = String::from_str("ALTER TABLE ");
    let t = d.quote_identifier(table);
    r.append(t.as_str());
    r.append(" ADD COLUMN ");
    let q = d.quote_identifier(f.field.as_str());
    r.append(q.as_str());
    r.append(" ");
    push_column_type(&mut r, f);
    push_not_null(&mut r, f.nullable);
    r
}

/// `DROP TABLE IF EXISTS` for a table.
fn drop_table_statement(d: Dialect, table: &str) -> (r: String)
    ensures
        r@ == drop_table(d, table@),
{
    proof {
        reveal_strlit("DROP TABLE IF EXISTS ");
    }
    let mut r = String::from_str("DROP TABLE IF EXISTS ");
    let t = d.quote_identifier(table);
    r.append(t.as_str());
    r
}

/// `ALTER TABLE .. DROP COLUMN` for a field.
fn drop_column_statement(d: Dialect, table: &str, field: &str) -> (r: String)
    ensures
        r@ == drop_column(d, table@, field@),
{
    proof {
        reveal_strlit("ALTER TABLE ");
        reveal_strlit(" DROP COLUMN ");
    }
    let mut r = String::from_str("ALTER TABLE ");
    let t = d.quote_identifier(table);
    r.append(t.as_str());
    r.append(" DROP COLUMN ");
    let q = d.quote_identifier(field);
    r.append(q.as_str());
    r
}

/// Appends an `ADD COLUMN` to `table` for each field of `fs` missing from `have`.
fn push_additions(out: &mut Vec<String>, d: Dialect, table: &str, have: &Vec<FieldInfo>, fs: &Vec<FieldInfo>)
    ensures
        views(final(out)@) == views(old(out)@) + additions(d, table@, field_names(have@), fs@),
{
    let ghost o = views(out@);
    let mut i: usize = 0;
    while i < fs.len()
        invariant
            i <= fs@.len(),
            views(out@) == o + additions(d, table@, field_names(have@), fs@.take(i as int)),
        decreases fs@.len() - i,
    {
        assert(fs@.take(i as int + 1).drop_last() =~= fs@.take(i as int));
        let ghost before = views(out@);
        if !has_field(have, fs[i].field.as_str()) {
            let s = add_column_statement(d, table, &fs[i]);
            out.push(s);
            assert(views(out@) =~= before.push(add_column(d, table@, fs@[i as int].view())));
        }
        i = i + 1;
        assert(views(out@) =~= o + additions(d, table@, field_names(have@), fs@.take(i as int)));
    }
    assert(fs@.take(fs@.len() as int) =~= fs@);
}

/// Appends a `DROP COLUMN` from `table` for each field of `fs` missing from `keep`.
fn push_drops(out: &mut Vec<String>, d: Dialect, table: &str, keep: &Vec<FieldInfo>, fs: &Vec<FieldInfo>)
    ensures
        views(final(out)@) == views(old(out)@) + drops(d, table@, field_names(keep@), fs@),
{
    let ghost o = views(out@);
    let mut i: usize = 0;
    while i < fs.len()
        invariant
            i <= fs@.len(),
            views(out@) == o + drops(d, table@, field_names(keep@), fs@.take(i as int)),
        decreases fs@.len() - i,
    {
        assert(fs@.take(i as int + 1).drop_last() =~= fs@.take(i as int));
        let ghost before = views(out@);
        if !has_field(keep, fs[i].field.as_str()) {
            let s = drop_column_statement(d, table, fs[i].field.as_str());
            out.push(s);
            assert(views(out@) =~= before.push(drop_column(d, table@, fs@[i as int].field@)));
        }
        i = i + 1;
        assert(views(out@) =~= o + drops(d, table@, field_names(keep@), fs@.take(i as int)));
    }
    assert(fs@.take(fs@.len() as int) =~= fs@);
}

/// The DDL statements that bring a database whose schema is `current` to the
/// schema `target`, in the order they are to run: a `CREATE TABLE` for each
/// target collection that does not exist yet; an `ADD COLUMN` for each field
/// that an existing table lacks; a `DROP TABLE IF EXISTS` for each user table
/// that the target no longer has (tables named `directus_...` are kept); and
/// a `DROP COLUMN` for each field that the target's table no longer has.
pub fn schema_apply_statements(current: &Vec<CollectionInfo>, target: &Vec<CollectionInfo>, d: Dialect) -> (r: Vec<String>)
    ensures
        views(r@) == apply_statements(d, current@, target@),
{
    let mut out: Vec<String> = Vec::new();
    let ghost cn = collection_names(current@);
    let ghost tn = collection_names(target@);
    // Tables to create.
    let mut i: usize = 0;
    while i < target.len()
        invariant
            cn == collection_names(current@),
            i <= target@.len(),
            views(out@) == creations(d, cn, target@.take(i as int)),
        decreases target@.len() - i,
    {
        assert(target@.take(i as int + 1).drop_last() =~= target@.take(i as int));
        let ghost before = views(out@);
        if !has_collection(current, target[i].collection.as_str()) {
            let s = create_table_statement(d, &target[i]);
            out.push(s);
            assert(views(out@) =~= before.push(create_table(d, target@[i as int])));
        }
        i = i + 1;
        assert(views(out@) =~= creations(d, cn, target@.take(i as int)));
    }
    assert(target@.take(target@.len() as int) =~= target@);
    let ghost s1 = views(out@);
    // Columns to add.
    let mut i: usize = 0;
    while i < target.len()
        invariant
            i <= target@.len(),
            views(out@) == s1 + extensions(d, current@, target@.take(i as int)),
        decreases target@.len() - i,
    {
        assert(target@.take(i as int + 1).drop_last() =~= target@.take(i as int));
        let t = &target[i];
        match find_collection(current, t.collection.as_str()) {
            Some(k) => {
                push_additions(&mut out, d, t.collection.as_str(), &current[k].fields, &t.fields);
            },
            None => {},
        }
        i = i + 1;
        assert(views(out@) =~= s1 + extensions(d, current@, target@.take(i as int)));
    }
    let ghost s2 = views(out@);
    // Tables to drop.
    let system: Vec<char> = chars_of("directus_");
    proof {
        reveal_strlit("directus_");
    }
    let mut i: usize = 0;
    while i < current.len()
        invariant
            tn == collection_names(target@),
            system@ == "directus_"@,
            i <= current@.len(),
            views(out@) == s2 + removals(d, tn, current@.take(i as int)),
        decreases current@.len() - i,
    {
        assert(current@.take(i as int + 1).drop_last() =~= current@.take(i as int));
        let ghost before = views(out@);
        let name = current[i].collection.as_str();
        let name_chars = chars_of(name);
        if !has_collection(target, name) && !starts_with(name_chars.as_slice(), system.as_slice()) {
            let s = drop_table_statement(d, name);
            out.push(s);
            assert(views(out@) =~= before.push(drop_table(d, current@[i as int].collection@)));
        }
        i = i + 1;
        assert(views(out@) =~= s2 + removals(d, tn, current@.take(i as int)));
    }
    let ghost s3 = views(out@);
    // Columns to drop.
    let mut i: usize = 0;
    while i < current.len()
        invariant
            i <= current@.len(),
            views(out@) == s3 + prunings(d, current@.take(i as int), target@),
        decreases current@.len() - i,
    {
        assert(current@.take(i as int + 1).drop_last() =~= current@.take(i as int));
        let c = &current[i];
        match find_collection(target, c.collection.as_str()) {
            Some(k) => {
                push_drops(&mut out, d, c.collection.as_str(), &target[k].fields, &c.fields);
            },
            None => {},
        }
        i = i + 1;
        assert(views(out@) =~= s3 + prunings(d, current@.take(i as int), target@));
    }
    assert(current@.take(current@.len() as int) =~= current@);
    out
}

} // verus!
