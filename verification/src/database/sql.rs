//! SQL text generation: bound values, filter operators and WHERE clauses.

use vstd::prelude::*;
use vstd::string::*;
use crate::json::{lemma_object_view, members_view, Json, JsonNumber, JsonValue, Num};
use crate::text::{decimal, join, join_strings, push_decimal, str_eq, views};
use super::{quote, sql_views, Dialect, RunAstError, SqlSpec, SqlValue};
use super::query::{Filter, FilterSpec};

verus! {

/// The bound value that a JSON value becomes. An integer that does not fit
/// in `i64` travels as a floating-point number.
pub open spec fn sql_of(v: Json) -> SqlSpec {
    match v {
        Json::Null => SqlSpec::Null,
        Json::Bool(b) => SqlSpec::Bool(b),
        Json::Number(Num::PosInt(u)) => if u <= i64::MAX {
            SqlSpec::Int(u as int)
        } else {
            SqlSpec::Float(decimal(u))
        },
        Json::Number(Num::NegInt(i)) => SqlSpec::Int(i),
        Json::Number(Num::Float(t)) => SqlSpec::Float(t),
        Json::Str(s) => SqlSpec::Text(s),
        _ => SqlSpec::Json(v),
    }
}

/// The positional placeholder for parameter `i` (`$i`).
pub open spec fn param(i: nat) -> Seq<char> {
    "$"@ + decimal(i)
}

/// The placeholders `$start`, `$start+1`, ... (`n` of them).
pub open spec fn params_from(start: nat, n: nat) -> Seq<Seq<char>> {
    Seq::new(n, |k: int| param((start + k) as nat))
}

/// The number of placeholders operator `op` writes for operand `v`: one
/// for a comparison or pattern (none for `_eq`/`_neq` with null), one per
/// element of an `_in` list, two for a `_between` pair, none otherwise.
pub open spec fn op_width(op: Seq<char>, v: Json) -> nat {
    if op == "_eq"@ || op == "_neq"@ {
        if v.is_null() { 0 } else { 1 }
    } else if op == "_lt"@ || op == "_lte"@ || op == "_gt"@ || op == "_gte"@ || op == "_contains"@
        || op == "_icontains"@ || op == "_starts_with"@ || op == "_ends_with"@ {
        1
    } else if op == "_in"@ {
        match v {
            Json::Arr(a) => a.len(),
            _ => 0,
        }
    } else if op == "_between"@ {
        match v {
            Json::Arr(a) => if a.len() == 2 { 2 } else { 0 },
            _ => 0,
        }
    } else {
        0
    }
}

/// A comparison clause `q <sym> $idx` with the value bound to it.
pub open spec fn compare_sql(q: Seq<char>, sym: Seq<char>, val: Json, idx: nat) -> Option<(Seq<char>, Seq<SqlSpec>, nat)> {
    Some((q + sym + param(idx), seq![sql_of(val)], idx + 1))
}

/// A pattern clause `q <kw> $idx` bound to `pattern`.
pub open spec fn like_sql(q: Seq<char>, kw: Seq<char>, pattern: Seq<char>, idx: nat) -> Option<(Seq<char>, Seq<SqlSpec>, nat)> {
    Some((q + kw + param(idx), seq![SqlSpec::Text(pattern)], idx + 1))
}

/// A clause with no bound value.
pub open spec fn bare_sql(c: Seq<char>, idx: nat) -> Option<(Seq<char>, Seq<SqlSpec>, nat)> {
    Some((c, seq![], idx))
}

/// The values bound to the placeholders of an `_in` list, one per element.
pub open spec fn list_bindings(a: Seq<Json>) -> Seq<SqlSpec> {
    Seq::new(a.len(), |i: int| sql_of(a[i]))
}

/// The clause of one filter operator `op` with operand `val` on the quoted
/// column `q`, the values bound to its placeholders (one per placeholder, in
/// order), and the next free parameter number; `None` for an unknown
/// operator or an operand of the wrong shape.
pub open spec fn operator_sql(q: Seq<char>, op: Seq<char>, val: Json, idx: nat) -> Option<(Seq<char>, Seq<SqlSpec>, nat)> {
    let text = match val.as_str() {
        Some(s) => s,
        None => Seq::empty(),
    };
    let flag = val.as_bool() == Some(true);
    if op == "_eq"@ {
        if val.is_null() { bare_sql(q + " IS NULL"@, idx) } else { compare_sql(q, " = "@, val, idx) }
    } else if op == "_neq"@ {
        if val.is_null() { bare_sql(q + " IS NOT NULL"@, idx) } else { compare_sql(q, " != "@, val, idx) }
    } else if op == "_lt"@ {
        compare_sql(q, " < "@, val, idx)
    } else if op == "_lte"@ {
        compare_sql(q, " <= "@, val, idx)
    } else if op == "_gt"@ {
        compare_sql(q, " > "@, val, idx)
    } else if op == "_gte"@ {
        compare_sql(q, " >= "@, val, idx)
    } else if op == "_in"@ {
        match val {
            Json::Arr(a) => Some((
                q + " IN ("@ + join(params_from(idx, a.len()), ", "@) + ")"@,
                list_bindings(a),
                idx + a.len(),
            )),
            _ => None,
        }
    } else if op == "_null"@ {
        if flag { bare_sql(q + " IS NULL"@, idx) } else { bare_sql(q + " IS NOT NULL"@, idx) }
    } else if op == "_nnull"@ {
        if flag { bare_sql(q + " IS NOT NULL"@, idx) } else { bare_sql(q + " IS NULL"@, idx) }
    } else if op == "_contains"@ {
        like_sql(q, " LIKE "@, "%"@ + text + "%"@, idx)
    } else if op == "_icontains"@ {
        like_sql(q, " ILIKE "@, "%"@ + text + "%"@, idx)
    } else if op == "_starts_with"@ {
        like_sql(q, " LIKE "@, text + "%"@, idx)
    } else if op == "_ends_with"@ {
        like_sql(q, " LIKE "@, "%"@ + text, idx)
    } else if op == "_between"@ {
        match val {
            Json::Arr(a) => if a.len() == 2 {
                Some((q + " BETWEEN "@ + param(idx) + " AND "@ + param(idx + 1), seq![sql_of(a[0]), sql_of(a[1])], idx + 2))
            } else {
                None
            },
            _ => None,
        }
    } else if op == "_empty"@ {
        if flag {
            bare_sql("("@ + q + " IS NULL OR "@ + q + " = '')"@, idx)
        } else {
            bare_sql("("@ + q + " IS NOT NULL AND "@ + q + " != '')"@, idx)
        }
    } else {
        None
    }
}

/// Operator names are different texts.
pub(crate) proof fn lemma_operator_names()
    ensures
        "_eq"@ != "_neq"@, "_eq"@ != "_lt"@, "_eq"@ != "_lte"@, "_eq"@ != "_gt"@, "_eq"@ != "_gte"@, "_eq"@ != "_in"@, "_eq"@ != "_null"@, "_eq"@ != "_nnull"@, "_eq"@ != "_contains"@, "_eq"@ != "_icontains"@, "_eq"@ != "_starts_with"@, "_eq"@ != "_ends_with"@, "_eq"@ != "_between"@, "_eq"@ != "_empty"@, "_neq"@ != "_lt"@, "_neq"@ != "_lte"@, "_neq"@ != "_gt"@, "_neq"@ != "_gte"@, "_neq"@ != "_in"@, "_neq"@ != "_null"@, "_neq"@ != "_nnull"@, "_neq"@ != "_contains"@, "_neq"@ != "_icontains"@, "_neq"@ != "_starts_with"@, "_neq"@ != "_ends_with"@, "_neq"@ != "_between"@, "_neq"@ != "_empty"@, "_lt"@ != "_lte"@, "_lt"@ != "_gt"@, "_lt"@ != "_gte"@, "_lt"@ != "_in"@, "_lt"@ != "_null"@, "_lt"@ != "_nnull"@, "_lt"@ != "_contains"@, "_lt"@ != "_icontains"@, "_lt"@ != "_starts_with"@, "_lt"@ != "_ends_with"@, "_lt"@ != "_between"@, "_lt"@ != "_empty"@, "_lte"@ != "_gt"@, "_lte"@ != "_gte"@, "_lte"@ != "_in"@, "_lte"@ != "_null"@, "_lte"@ != "_nnull"@, "_lte"@ != "_contains"@, "_lte"@ != "_icontains"@, "_lte"@ != "_starts_with"@, "_lte"@ != "_ends_with"@, "_lte"@ != "_between"@, "_lte"@ != "_empty"@, "_gt"@ != "_gte"@, "_gt"@ != "_in"@, "_gt"@ != "_null"@, "_gt"@ != "_nnull"@, "_gt"@ != "_contains"@, "_gt"@ != "_icontains"@, "_gt"@ != "_starts_with"@, "_gt"@ != "_ends_with"@, "_gt"@ != "_between"@, "_gt"@ != "_empty"@, "_gte"@ != "_in"@, "_gte"@ != "_null"@, "_gte"@ != "_nnull"@, "_gte"@ != "_contains"@, "_gte"@ != "_icontains"@, "_gte"@ != "_starts_with"@, "_gte"@ != "_ends_with"@, "_gte"@ != "_between"@, "_gte"@ != "_empty"@, "_in"@ != "_null"@, "_in"@ != "_nnull"@, "_in"@ != "_contains"@, "_in"@ != "_icontains"@, "_in"@ != "_starts_with"@, "_in"@ != "_ends_with"@, "_in"@ != "_between"@, "_in"@ != "_empty"@, "_null"@ != "_nnull"@, "_null"@ != "_contains"@, "_null"@ != "_icontains"@, "_null"@ != "_starts_with"@, "_null"@ != "_ends_with"@, "_null"@ != "_between"@, "_null"@ != "_empty"@, "_nnull"@ != "_contains"@, "_nnull"@ != "_icontains"@, "_nnull"@ != "_starts_with"@, "_nnull"@ != "_ends_with"@, "_nnull"@ != "_between"@, "_nnull"@ != "_empty"@, "_contains"@ != "_icontains"@, "_contains"@ != "_starts_with"@, "_contains"@ != "_ends_with"@, "_contains"@ != "_between"@, "_contains"@ != "_empty"@, "_icontains"@ != "_starts_with"@, "_icontains"@ != "_ends_with"@, "_icontains"@ != "_between"@, "_icontains"@ != "_empty"@, "_starts_with"@ != "_ends_with"@, "_starts_with"@ != "_between"@, "_starts_with"@ != "_empty"@, "_ends_with"@ != "_between"@, "_ends_with"@ != "_empty"@, "_between"@ != "_empty"@,
{
    reveal_strlit("_eq");
    reveal_strlit("_neq");
    reveal_strlit("_lt");
    reveal_strlit("_lte");
    reveal_strlit("_gt");
    reveal_strlit("_gte");
    reveal_strlit("_in");
    reveal_strlit("_null");
    reveal_strlit("_nnull");
    reveal_strlit("_contains");
    reveal_strlit("_icontains");
    reveal_strlit("_starts_with");
    reveal_strlit("_ends_with");
    reveal_strlit("_between");
    reveal_strlit("_empty");
    assert("_eq"@[1] != "_neq"@[1]);
    assert("_eq"@[1] != "_lt"@[1]);
    assert("_eq"@[1] != "_lte"@[1]);
    assert("_eq"@[1] != "_gt"@[1]);
    assert("_eq"@[1] != "_gte"@[1]);
    assert("_eq"@[1] != "_in"@[1]);
    assert("_eq"@[1] != "_null"@[1]);
    assert("_eq"@[1] != "_nnull"@[1]);
    assert("_eq"@[1] != "_contains"@[1]);
    assert("_eq"@[1] != "_icontains"@[1]);
    assert("_eq"@[1] != "_starts_with"@[1]);
    assert("_eq"@[2] != "_ends_with"@[2]);
    assert("_eq"@[1] != "_between"@[1]);
    assert("_eq"@[2] != "_empty"@[2]);
    assert("_neq"@[1] != "_lt"@[1]);
    assert("_neq"@[1] != "_lte"@[1]);
    assert("_neq"@[1] != "_gt"@[1]);
    assert("_neq"@[1] != "_gte"@[1]);
    assert("_neq"@[1] != "_in"@[1]);
    assert("_neq"@[2] != "_null"@[2]);
    assert("_neq"@[2] != "_nnull"@[2]);
    assert("_neq"@[1] != "_contains"@[1]);
    assert("_neq"@[1] != "_icontains"@[1]);
    assert("_neq"@[1] != "_starts_with"@[1]);
    assert("_neq"@[1] != "_ends_with"@[1]);
    assert("_neq"@[1] != "_between"@[1]);
    assert("_neq"@[1] != "_empty"@[1]);
    assert("_lt"@.len() != "_lte"@.len());
    assert("_lt"@[1] != "_gt"@[1]);
    assert("_lt"@[1] != "_gte"@[1]);
    assert("_lt"@[1] != "_in"@[1]);
    assert("_lt"@[1] != "_null"@[1]);
    assert("_lt"@[1] != "_nnull"@[1]);
    assert("_lt"@[1] != "_contains"@[1]);
    assert("_lt"@[1] != "_icontains"@[1]);
    assert("_lt"@[1] != "_starts_with"@[1]);
    assert("_lt"@[1] != "_ends_with"@[1]);
    assert("_lt"@[1] != "_between"@[1]);
    assert("_lt"@[1] != "_empty"@[1]);
    assert("_lte"@[1] != "_gt"@[1]);
    assert("_lte"@[1] != "_gte"@[1]);
    assert("_lte"@[1] != "_in"@[1]);
    assert("_lte"@[1] != "_null"@[1]);
    assert("_lte"@[1] != "_nnull"@[1]);
    assert("_lte"@[1] != "_contains"@[1]);
    assert("_lte"@[1] != "_icontains"@[1]);
    assert("_lte"@[1] != "_starts_with"@[1]);
    assert("_lte"@[1] != "_ends_with"@[1]);
    assert("_lte"@[1] != "_between"@[1]);
    assert("_lte"@[1] != "_empty"@[1]);
    assert("_gt"@.len() != "_gte"@.len());
    assert("_gt"@[1] != "_in"@[1]);
    assert("_gt"@[1] != "_null"@[1]);
    assert("_gt"@[1] != "_nnull"@[1]);
    assert("_gt"@[1] != "_contains"@[1]);
    assert("_gt"@[1] != "_icontains"@[1]);
    assert("_gt"@[1] != "_starts_with"@[1]);
    assert("_gt"@[1] != "_ends_with"@[1]);
    assert("_gt"@[1] != "_between"@[1]);
    assert("_gt"@[1] != "_empty"@[1]);
    assert("_gte"@[1] != "_in"@[1]);
    assert("_gte"@[1] != "_null"@[1]);
    assert("_gte"@[1] != "_nnull"@[1]);
    assert("_gte"@[1] != "_contains"@[1]);
    assert("_gte"@[1] != "_icontains"@[1]);
    assert("_gte"@[1] != "_starts_with"@[1]);
    assert("_gte"@[1] != "_ends_with"@[1]);
    assert("_gte"@[1] != "_between"@[1]);
    assert("_gte"@[1] != "_empty"@[1]);
    assert("_in"@[1] != "_null"@[1]);
    assert("_in"@[1] != "_nnull"@[1]);
    assert("_in"@[1] != "_contains"@[1]);
    assert("_in"@[2] != "_icontains"@[2]);
    assert("_in"@[1] != "_starts_with"@[1]);
    assert("_in"@[1] != "_ends_with"@[1]);
    assert("_in"@[1] != "_between"@[1]);
    assert("_in"@[1] != "_empty"@[1]);
    assert("_null"@[2] != "_nnull"@[2]);
    assert("_null"@[1] != "_contains"@[1]);
    assert("_null"@[1] != "_icontains"@[1]);
    assert("_null"@[1] != "_starts_with"@[1]);
    assert("_null"@[1] != "_ends_with"@[1]);
    assert("_null"@[1] != "_between"@[1]);
    assert("_null"@[1] != "_empty"@[1]);
    assert("_nnull"@[1] != "_contains"@[1]);
    assert("_nnull"@[1] != "_icontains"@[1]);
    assert("_nnull"@[1] != "_starts_with"@[1]);
    assert("_nnull"@[1] != "_ends_with"@[1]);
    assert("_nnull"@[1] != "_between"@[1]);
    assert("_nnull"@[1] != "_empty"@[1]);
    assert("_contains"@[1] != "_icontains"@[1]);
    assert("_contains"@[1] != "_starts_with"@[1]);
    assert("_contains"@[1] != "_ends_with"@[1]);
    assert("_contains"@[1] != "_between"@[1]);
    assert("_contains"@[1] != "_empty"@[1]);
    assert("_icontains"@[1] != "_starts_with"@[1]);
    assert("_icontains"@[1] != "_ends_with"@[1]);
    assert("_icontains"@[1] != "_between"@[1]);
    assert("_icontains"@[1] != "_empty"@[1]);
    assert("_starts_with"@[1] != "_ends_with"@[1]);
    assert("_starts_with"@[1] != "_between"@[1]);
    assert("_starts_with"@[1] != "_empty"@[1]);
    assert("_ends_with"@[1] != "_between"@[1]);
    assert("_ends_with"@[2] != "_empty"@[2]);
    assert("_between"@[1] != "_empty"@[1]);
}

/// An operator moves the parameter counter on by exactly its width, and
/// one that writes no clause has width 0.
proof fn lemma_op_width(q: Seq<char>, op: Seq<char>, val: Json, idx: nat)
    ensures
        match operator_sql(q, op, val, idx) {
            Some((c, b, n)) => n == idx + op_width(op, val),
            None => op_width(op, val) == 0,
        },
{
    lemma_operator_names();
}

/// Each comparison operator writes the column, its own SQL comparison
/// symbol and the placeholder `$k`, and binds the operand to it: `_lt` is
/// `<`, `_lte` is `<=`, `_gt` is `>`, `_gte` is `>=`; for an operand other
/// than null `_eq` is `=` and `_neq` is `!=`, while a null operand makes them
/// `IS NULL` / `IS NOT NULL` with nothing bound.
pub proof fn lemma_comparison_clauses(q: Seq<char>, v: Json, k: nat)
    ensures
        operator_sql(q, "_lt"@, v, k) == Some((q + " < "@ + "$"@ + decimal(k), seq![sql_of(v)], k + 1)),
        operator_sql(q, "_lte"@, v, k) == Some((q + " <= "@ + "$"@ + decimal(k), seq![sql_of(v)], k + 1)),
        operator_sql(q, "_gt"@, v, k) == Some((q + " > "@ + "$"@ + decimal(k), seq![sql_of(v)], k + 1)),
        operator_sql(q, "_gte"@, v, k) == Some((q + " >= "@ + "$"@ + decimal(k), seq![sql_of(v)], k + 1)),
        !(v is Null) ==> operator_sql(q, "_eq"@, v, k) == Some((q + " = "@ + "$"@ + decimal(k), seq![sql_of(v)], k + 1)),
        !(v is Null) ==> operator_sql(q, "_neq"@, v, k) == Some((q + " != "@ + "$"@ + decimal(k), seq![sql_of(v)], k + 1)),
        v is Null ==> operator_sql(q, "_eq"@, v, k) == Some((q + " IS NULL"@, Seq::<SqlSpec>::empty(), k)),
        v is Null ==> operator_sql(q, "_neq"@, v, k) == Some((q + " IS NOT NULL"@, Seq::<SqlSpec>::empty(), k)),
{
    lemma_operator_names();
    assert(q + " < "@ + param(k) == q + " < "@ + "$"@ + decimal(k));
    assert(q + " <= "@ + param(k) == q + " <= "@ + "$"@ + decimal(k));
    assert(q + " > "@ + param(k) == q + " > "@ + "$"@ + decimal(k));
    assert(q + " >= "@ + param(k) == q + " >= "@ + "$"@ + decimal(k));
    assert(q + " = "@ + param(k) == q + " = "@ + "$"@ + decimal(k));
    assert(q + " != "@ + param(k) == q + " != "@ + "$"@ + decimal(k));
}

/// The pattern operators bind one text to the placeholder `$k`: `_contains`
/// is `LIKE` with `%text%`, `_icontains` is `ILIKE` with `%text%`,
/// `_starts_with` is `LIKE` with `text%` and `_ends_with` is `LIKE` with
/// `%text`, where `text` is the string operand.
pub proof fn lemma_pattern_clauses(q: Seq<char>, text: Seq<char>, k: nat)
    ensures
        operator_sql(q, "_contains"@, Json::Str(text), k) == Some((q + " LIKE "@ + "$"@ + decimal(k), seq![SqlSpec::Text("%"@ + text + "%"@)], k + 1)),
        operator_sql(q, "_icontains"@, Json::Str(text), k) == Some((q + " ILIKE "@ + "$"@ + decimal(k), seq![SqlSpec::Text("%"@ + text + "%"@)], k + 1)),
        operator_sql(q, "_starts_with"@, Json::Str(text), k) == Some((q + " LIKE "@ + "$"@ + decimal(k), seq![SqlSpec::Text(text + "%"@)], k + 1)),
        operator_sql(q, "_ends_with"@, Json::Str(text), k) == Some((q + " LIKE "@ + "$"@ + decimal(k), seq![SqlSpec::Text("%"@ + text)], k + 1)),
{
    lemma_operator_names();
    assert(q + " LIKE "@ + param(k) == q + " LIKE "@ + "$"@ + decimal(k));
    assert(q + " ILIKE "@ + param(k) == q + " ILIKE "@ + "$"@ + decimal(k));
}

/// `_null: true` and `_nnull: false` test `IS NULL`; `_null: false` and
/// `_nnull: true` test `IS NOT NULL`; none binds a value. `_between [a, b]`
/// is `BETWEEN $k AND $(k+1)` bound to `a` then `b`.
pub proof fn lemma_null_and_range_clauses(q: Seq<char>, a: Json, b: Json, k: nat)
    ensures
        operator_sql(q, "_null"@, Json::Bool(true), k) == Some((q + " IS NULL"@, Seq::<SqlSpec>::empty(), k)),
        operator_sql(q, "_null"@, Json::Bool(false), k) == Some((q + " IS NOT NULL"@, Seq::<SqlSpec>::empty(), k)),
        operator_sql(q, "_nnull"@, Json::Bool(true), k) == Some((q + " IS NOT NULL"@, Seq::<SqlSpec>::empty(), k)),
        operator_sql(q, "_nnull"@, Json::Bool(false), k) == Some((q + " IS NULL"@, Seq::<SqlSpec>::empty(), k)),
        operator_sql(q, "_between"@, Json::Arr(seq![a, b]), k) == Some((
            q + " BETWEEN "@ + "$"@ + decimal(k) + " AND "@ + "$"@ + decimal(k + 1),
            seq![sql_of(a), sql_of(b)],
            k + 2,
        )),
{
    lemma_operator_names();
    let a2 = seq![a, b];
    assert(a2[0] == a && a2[1] == b);
    assert(q + " BETWEEN "@ + param(k) + " AND "@ + param(k + 1) == q + " BETWEEN "@ + "$"@ + decimal(k) + " AND "@ + "$"@ + decimal(k + 1));
}

/// `_in` with a list of values is `IN (...)` with one placeholder per value,
/// bound to the values in order: one value gives `IN ($k)`, two give
/// `IN ($k, $(k+1))`. An `_in` operand that is not a list writes no clause.
pub proof fn lemma_in_clause(q: Seq<char>, a: Seq<Json>, x: Json, y: Json, k: nat)
    ensures
        operator_sql(q, "_in"@, Json::Arr(a), k) matches Some((c, b, n))
            && b.len() == a.len()
            && (forall|i: int| 0 <= i < a.len() ==> #[trigger] b[i] == sql_of(a[i]))
            && n == k + a.len()
            && c.take(q.len() + 5int) == q + " IN ("@
            && c.last() == ')',
        operator_sql(q, "_in"@, Json::Arr(seq![x]), k) == Some((q + " IN ("@ + "$"@ + decimal(k) + ")"@, seq![sql_of(x)], k + 1)),
        operator_sql(q, "_in"@, Json::Arr(seq![x, y]), k) == Some((
            q + " IN ("@ + "$"@ + decimal(k) + ", "@ + "$"@ + decimal(k + 1) + ")"@,
            seq![sql_of(x), sql_of(y)],
            k + 2,
        )),
        !(x is Arr) ==> operator_sql(q, "_in"@, x, k) is None,
{
    lemma_operator_names();
    reveal_strlit(" IN (");
    reveal_strlit(")");
    let c = q + " IN ("@ + join(params_from(k, a.len()), ", "@) + ")"@;
    assert(c.take(q.len() + 5int) =~= q + " IN ("@);
    assert(c.last() == ')');
    let p1 = params_from(k, 1);
    assert(p1.len() == 1 && p1[0] == param(k));
    assert(join(p1, ", "@) == param(k));
    assert(list_bindings(seq![x]) =~= seq![sql_of(x)]);
    let p2 = params_from(k, 2);
    assert(p2.drop_last() =~= params_from(k, 1));
    assert(p2.last() == param(k + 1));
    assert(join(p2, ", "@) == param(k) + ", "@ + param(k + 1));
    assert(list_bindings(seq![x, y]) =~= seq![sql_of(x), sql_of(y)]);
    assert(q + " IN ("@ + param(k) + ")"@ == q + " IN ("@ + "$"@ + decimal(k) + ")"@);
    assert(q + " IN ("@ + (param(k) + ", "@ + param(k + 1)) + ")"@
        == q + " IN ("@ + "$"@ + decimal(k) + ", "@ + "$"@ + decimal(k + 1) + ")"@);
}

/// Converts a JSON value into a bound parameter value.
pub fn value_to_sql_value(val: &JsonValue) -> (r: SqlValue)
    ensures
        r.view() == sql_of(val@),
{
    match val {
        JsonValue::Null => SqlValue::Null,
        JsonValue::Bool(b) => SqlValue::Bool(*b),
        JsonValue::Number(JsonNumber::PosInt(u)) => {
            if *u <= 9223372036854775807u64 {
                SqlValue::Int(*u as i64)
            } else {
                let mut t = String::new();
                push_decimal(&mut t, *u);
                assert(t@ =~= decimal(*u as nat));
                SqlValue::Float(t)
            }
        },
        JsonValue::Number(JsonNumber::NegInt(i)) => SqlValue::Int(*i),
        JsonValue::Number(JsonNumber::Float(t)) => SqlValue::Float(t.clone()),
        JsonValue::String(s) => SqlValue::Text(s.clone()),
        _ => SqlValue::Json(val.copy()),
    }
}

/// `q + kw + $idx`, the placeholder taken from the counter.
fn placeholder_clause(q: &str, kw: &str, param_idx: &mut usize) -> (r: String)
    requires
        *old(param_idx) < usize::MAX,
    ensures
        r@ == q@ + kw@ + param(*old(param_idx) as nat),
        *final(param_idx) == *old(param_idx) + 1,
{
    let mut s = String::new();
    s.append(q);
    s.append(kw);
    s.append("$");
    push_decimal(&mut s, *param_idx as u64);
    *param_idx = *param_idx + 1;
    proof {
        assert(s@ =~= q@ + kw@ + param(*old(param_idx) as nat));
    }
    s
}

/// Three pieces of text, concatenated.
fn concat3(a: &str, b: &str, c: &str) -> (r: String)
    ensures
        r@ == a@ + b@ + c@,
{
    let mut s = String::new();
    s.append(a);
    s.append(b);
    s.append(c);
    s
}

/// One bound value.
fn one_value(v: SqlValue) -> (r: Vec<SqlValue>)
    ensures
        sql_views(r@) == seq![v.view()],
{
    let mut r: Vec<SqlValue> = Vec::new();
    r.push(v);
    assert(sql_views(r@) =~= seq![v.view()]);
    r
}

/// The bound values of a list, one per element, in order.
fn list_values(arr: &Vec<JsonValue>) -> (r: Vec<SqlValue>)
    ensures
        sql_views(r@) == Seq::new(arr@.len(), |i: int| sql_of(arr@[i]@)),
{
    let mut r: Vec<SqlValue> = Vec::new();
    let mut k: usize = 0;
    while k < arr.len()
        invariant
            k <= arr@.len(),
            sql_views(r@) == Seq::new(k as nat, |i: int| sql_of(arr@[i]@)),
        decreases arr@.len() - k,
    {
        let v = value_to_sql_value(&arr[k]);
        proof {
            lemma_sql_views_push(r@, v);
        }
        r.push(v);
        k = k + 1;
        assert(sql_views(r@) =~= Seq::new(k as nat, |i: int| sql_of(arr@[i]@)));
    }
    r
}

/// The SQL clause of one filter operator on an already quoted column; the
/// parameter counter advances past the placeholders it uses.
pub fn build_operator_sql(quoted_field: &str, op: &str, val: &JsonValue, param_idx: &mut usize) -> (r: Option<(String, Vec<SqlValue>)>)
    requires
        *old(param_idx) + op_width(op@, val@) <= usize::MAX,
    ensures
        r is None <==> operator_sql(quoted_field@, op@, val@, *old(param_idx) as nat) is None,
        r is None ==> *final(param_idx) == *old(param_idx),
        r is Some ==> ({
            let (c, b, n) = operator_sql(quoted_field@, op@, val@, *old(param_idx) as nat)->Some_0;
            &&& r->Some_0.0@ == c
            &&& sql_views(r->Some_0.1@) == b
            &&& *final(param_idx) == n
        }),
{
    proof {
        lemma_operator_names();
    }
    let q = quoted_field;
    let text: &str = match val.as_str() {
        Some(s) => s,
        None => "",
    };
    proof {
        reveal_strlit("");
    }
    let flag = match val.as_bool() {
        Some(b) => b,
        None => false,
    };
    if str_eq(op, "_eq") {
        if val.is_null() {
            Some((concat3(q, " IS NULL", ""), Vec::new()))
        } else {
            let c = placeholder_clause(q, " = ", param_idx);
            Some((c, one_value(value_to_sql_value(val))))
        }
    } else if str_eq(op, "_neq") {
        if val.is_null() {
            Some((concat3(q, " IS NOT NULL", ""), Vec::new()))
        } else {
            let c = placeholder_clause(q, " != ", param_idx);
            Some((c, one_value(value_to_sql_value(val))))
        }
    } else if str_eq(op, "_lt") {
        let c = placeholder_clause(q, " < ", param_idx);
        Some((c, one_value(value_to_sql_value(val))))
    } else if str_eq(op, "_lte") {
        let c = placeholder_clause(q, " <= ", param_idx);
        Some((c, one_value(value_to_sql_value(val))))
    } else if str_eq(op, "_gt") {
        let c = placeholder_clause(q, " > ", param_idx);
        Some((c, one_value(value_to_sql_value(val))))
    } else if str_eq(op, "_gte") {
        let c = placeholder_clause(q, " >= ", param_idx);
        Some((c, one_value(value_to_sql_value(val))))
    } else if str_eq(op, "_in") {
        match val {
            JsonValue::Array(arr) => {
                let ghost start = *param_idx as nat;
                assert(val@->Arr_0.len() == arr@.len());
                let mut ph: Vec<String> = Vec::new();
                let mut k: usize = 0;
                while k < arr.len()
                    invariant
                        k <= arr@.len(),
                        *param_idx == start + k,
                        start + arr@.len() <= usize::MAX,
                        ph@.len() == k,
                        views(ph@) =~= params_from(start, k as nat),
                    decreases arr@.len() - k,
                {
                    let ghost old_ph = ph@;
                    let mut p = String::new();
                    p.append("$");
                    push_decimal(&mut p, *param_idx as u64);
                    assert(p@ == param((start + k) as nat));
                    ph.push(p);
                    assert(ph@ == old_ph.push(p));
                    proof {
                        let n = (k + 1) as nat;
                        assert forall|i: int| 0 <= i < n implies #[trigger] views(ph@)[i] == params_from(start, n)[i] by {
                            if i < k {
                                assert(views(old_ph)[i] == params_from(start, k as nat)[i]);
                                assert(ph@[i] == old_ph[i]);
                            } else {
                                assert(ph@[i] == p);
                            }
                        }
                        assert(views(ph@) =~= params_from(start, n));
                    }
                    *param_idx = *param_idx + 1;
                    k = k + 1;
                }
                let joined = join_strings(&ph, ", ");
                let c = concat3(q, " IN (", joined.as_str());
                let c = concat3(c.as_str(), ")", "");
                let binds = list_values(arr);
                proof {
                    crate::json::lemma_array_view(arr);
                    assert(sql_views(binds@) =~= list_bindings(val@->Arr_0));
                }
                Some((c, binds))
            },
            _ => None,
        }
    } else if str_eq(op, "_null") {
        if flag {
            Some((concat3(q, " IS NULL", ""), Vec::new()))
        } else {
            Some((concat3(q, " IS NOT NULL", ""), Vec::new()))
        }
    } else if str_eq(op, "_nnull") {
        if flag {
            Some((concat3(q, " IS NOT NULL", ""), Vec::new()))
        } else {
            Some((concat3(q, " IS NULL", ""), Vec::new()))
        }
    } else if str_eq(op, "_contains") {
        let c = placeholder_clause(q, " LIKE ", param_idx);
        Some((c, one_value(SqlValue::Text(concat3("%", text, "%")))))
    } else if str_eq(op, "_icontains") {
        let c = placeholder_clause(q, " ILIKE ", param_idx);
        Some((c, one_value(SqlValue::Text(concat3("%", text, "%")))))
    } else if str_eq(op, "_starts_with") {
        let c = placeholder_clause(q, " LIKE ", param_idx);
        Some((c, one_value(SqlValue::Text(concat3("", text, "%")))))
    } else if str_eq(op, "_ends_with") {
        let c = placeholder_clause(q, " LIKE ", param_idx);
        Some((c, one_value(SqlValue::Text(concat3("%", text, "")))))
    } else if str_eq(op, "_between") {
        match val {
            JsonValue::Array(arr) => {
                if arr.len() == 2 {
                    let first = placeholder_clause(q, " BETWEEN ", param_idx);
                    let c = placeholder_clause(first.as_str(), " AND ", param_idx);
                    proof {
                        crate::json::lemma_array_view(arr);
                    }
                    let mut binds: Vec<SqlValue> = Vec::new();
                    binds.push(value_to_sql_value(&arr[0]));
                    binds.push(value_to_sql_value(&arr[1]));
                    assert(sql_views(binds@) =~= seq![sql_of(val@->Arr_0[0]), sql_of(val@->Arr_0[1])]);
                    Some((c, binds))
                } else {
                    None
                }
            },
            _ => None,
        }
    } else if str_eq(op, "_empty") {
        if flag {
            let a = concat3("(", q, " IS NULL OR ");
            Some((concat3(a.as_str(), q, " = '')"), Vec::new()))
        } else {
            let a = concat3("(", q, " IS NOT NULL AND ");
            Some((concat3(a.as_str(), q, " != '')"), Vec::new()))
        }
    } else {
        None
    }
}

/// Clauses, bound values and next parameter number, as a filter is walked.
pub type SqlState = (Seq<Seq<char>>, Seq<SqlSpec>, nat);

/// Adds the clause of one operator to the walk state.
pub open spec fn step_operator(q: Seq<char>, op: Seq<char>, val: Json, st: SqlState) -> SqlState {
    match operator_sql(q, op, val, st.2) {
        Some((c, b, n)) => (
            st.0.push(c),
            st.1 + b,
            n,
        ),
        None => st,
    }
}

/// Walks the operator members `ops` of one field's operator object.
pub open spec fn ops_sql(q: Seq<char>, ops: Seq<(Seq<char>, Json)>, st: SqlState) -> SqlState
    decreases ops.len(),
{
    if ops.len() == 0 {
        st
    } else {
        step_operator(q, ops.last().0, ops.last().1, ops_sql(q, ops.drop_last(), st))
    }
}

/// The column `table.field`, both quoted.
pub open spec fn column(d: Dialect, table: Seq<char>, field: Seq<char>) -> Seq<char> {
    quote(d, table) + "."@ + quote(d, field)
}

/// Walks the members of a field filter; a member whose value is not an
/// object contributes nothing.
pub open spec fn entries_sql(d: Dialect, table: Seq<char>, entries: Seq<(Seq<char>, Json)>, st: SqlState) -> SqlState
    decreases entries.len(),
{
    if entries.len() == 0 {
        st
    } else {
        let before = entries_sql(d, table, entries.drop_last(), st);
        match entries.last().1 {
            Json::Obj(ops) => ops_sql(column(d, table, entries.last().0), ops, before),
            _ => before,
        }
    }
}

/// The result of a group of clauses joined by `sep`: nothing when there is
/// no clause, else the clauses in parentheses.
pub open spec fn group_sql(st: SqlState, sep: Seq<char>) -> SqlState {
    if st.0.len() == 0 {
        (seq![], seq![], st.2)
    } else {
        (seq!["("@ + join(st.0, sep) + ")"@], st.1, st.2)
    }
}

/// The WHERE text, bound values and next parameter number of a filter on
/// `table`, starting at parameter `idx`.
pub open spec fn filter_sql(d: Dialect, table: Seq<char>, f: FilterSpec, idx: nat) -> (Seq<char>, Seq<SqlSpec>, nat)
    decreases f,
{
    match f {
        FilterSpec::And(subs) => {
            let g = group_sql(subs_sql(d, table, subs, idx), " AND "@);
            (if g.0.len() == 0 { Seq::empty() } else { g.0[0] }, g.1, g.2)
        },
        FilterSpec::Or(subs) => {
            let g = group_sql(subs_sql(d, table, subs, idx), " OR "@);
            (if g.0.len() == 0 { Seq::empty() } else { g.0[0] }, g.1, g.2)
        },
        FilterSpec::Field(entries) => {
            let st = entries_sql(d, table, entries, (seq![], seq![], idx));
            if st.0.len() == 0 {
                (Seq::empty(), Seq::empty(), st.2)
            } else {
                (join(st.0, " AND "@), st.1, st.2)
            }
        },
    }
}

/// Walks the sub-filters of a group: a sub-filter with an empty clause is
/// skipped.
pub open spec fn subs_sql(d: Dialect, table: Seq<char>, subs: Seq<FilterSpec>, idx: nat) -> SqlState
    decreases subs,
{
    if subs.len() == 0 {
        (seq![], seq![], idx)
    } else {
        let before = subs_sql(d, table, subs.drop_last(), idx);
        let r = filter_sql(d, table, subs[subs.len() - 1], before.2);
        if r.0.len() > 0 {
            (before.0.push(r.0), before.1 + r.1, r.2)
        } else {
            before
        }
    }
}

/// The number of placeholders the operators `ops` write.
pub open spec fn ops_width(ops: Seq<(Seq<char>, Json)>) -> nat
    decreases ops.len(),
{
    if ops.len() == 0 { 0 } else { op_width(ops[0].0, ops[0].1) + ops_width(ops.skip(1)) }
}

/// The number of placeholders the members of a field filter write.
pub open spec fn entries_width(entries: Seq<(Seq<char>, Json)>) -> nat
    decreases entries.len(),
{
    if entries.len() == 0 {
        0
    } else {
        (match entries[0].1 {
            Json::Obj(ops) => ops_width(ops),
            _ => 0,
        }) + entries_width(entries.skip(1))
    }
}

/// The number of placeholders a filter writes.
pub open spec fn filter_width(f: FilterSpec) -> nat
    decreases f,
{
    match f {
        FilterSpec::And(subs) => subs_width(subs),
        FilterSpec::Or(subs) => subs_width(subs),
        FilterSpec::Field(entries) => entries_width(entries),
    }
}

/// The number of placeholders a list of sub-filters writes.
pub open spec fn subs_width(subs: Seq<FilterSpec>) -> nat
    decreases subs,
{
    if subs.len() == 0 { 0 } else { filter_width(subs[0]) + subs_width(subs.skip(1)) }
}

/// Appends `x` to the bound values.
proof fn lemma_sql_views_push(v: Seq<SqlValue>, x: SqlValue)
    ensures
        sql_views(v.push(x)) == sql_views(v).push(x.view()),
{
    assert(sql_views(v.push(x)) =~= sql_views(v).push(x.view()));
}

proof fn lemma_views_push(v: Seq<String>, x: String)
    ensures
        views(v.push(x)) == views(v).push(x@),
{
    assert(views(v.push(x)) =~= views(v).push(x@));
}

/// Quoted `table.field`.
fn column_text(d: Dialect, table: &str, field: &str) -> (r: String)
    ensures
        r@ == column(d, table@, field@),
{
    let t = d.quote_identifier(table);
    let f = d.quote_identifier(field);
    concat3(t.as_str(), ".", f.as_str())
}

/// The clauses of a field filter (members `name: {op: value, ...}`), joined
/// with ` AND `.
fn build_field_sql(entries: &Vec<(String, JsonValue)>, d: Dialect, table: &str, param_idx: usize) -> (r: (String, Vec<SqlValue>, usize))
    requires
        param_idx + entries_width(members_view(entries@)) <= usize::MAX,
    ensures
        ({
            let st = entries_sql(d, table@, members_view(entries@), (seq![], seq![], param_idx as nat));
            &&& r.0@ == (if st.0.len() == 0 { Seq::empty() } else { join(st.0, " AND "@) })
            &&& sql_views(r.1@) == (if st.0.len() == 0 { Seq::empty() } else { st.1 })
            &&& r.2 == st.2
            &&& r.2 <= param_idx + entries_width(members_view(entries@))
        }),
{
    let ghost e = members_view(entries@);
    let ghost init: SqlState = (seq![], seq![], param_idx as nat);
    let mut parts: Vec<String> = Vec::new();
    let mut binds: Vec<SqlValue> = Vec::new();
    let mut idx: usize = param_idx;
    let mut i: usize = 0;
    assert(e.take(0) =~= Seq::<(Seq<char>, Json)>::empty());
    assert(e.skip(0) =~= e);
    while i < entries.len()
        invariant
            e == members_view(entries@),
            i <= entries@.len(),
            init == (Seq::<Seq<char>>::empty(), Seq::<SqlSpec>::empty(), param_idx as nat),
            (views(parts@), sql_views(binds@), idx as nat) == entries_sql(d, table@, e.take(i as int), init),
            idx + entries_width(e.skip(i as int)) <= usize::MAX,
            idx + entries_width(e.skip(i as int)) <= param_idx + entries_width(e),
        decreases entries@.len() - i,
    {
        let ghost before: SqlState = (views(parts@), sql_views(binds@), idx as nat);
        let ghost idx_before = idx;
        proof {
            assert(e.skip(i as int).skip(1) =~= e.skip(i as int + 1));
            assert(e.skip(i as int)[0] == e[i as int]);
            assert(e.take(i as int + 1).drop_last() =~= e.take(i as int));
            assert(e.take(i as int + 1).last() == e[i as int]);
        }
        match &entries[i].1 {
            JsonValue::Object(ops) => {
                proof {
                    lemma_object_view(ops);
                }
                let ghost m = members_view(ops@);
                let col = column_text(d, table, entries[i].0.as_str());
                let mut j: usize = 0;
                assert(m.take(0) =~= Seq::<(Seq<char>, Json)>::empty());
                assert(m.skip(0) =~= m);
                while j < ops.len()
                    invariant
                        m == members_view(ops@),
                        j <= ops@.len(),
                        (views(parts@), sql_views(binds@), idx as nat) == ops_sql(col@, m.take(j as int), before),
                        idx + ops_width(m.skip(j as int)) + entries_width(e.skip(i as int + 1)) <= usize::MAX,
                        idx + ops_width(m.skip(j as int)) <= idx_before + ops_width(m),
                    decreases ops@.len() - j,
                {
                    proof {
                        assert(m.skip(j as int).skip(1) =~= m.skip(j as int + 1));
                        assert(m.skip(j as int)[0] == m[j as int]);
                        assert(m.take(j as int + 1).drop_last() =~= m.take(j as int));
                        assert(m.take(j as int + 1).last() == m[j as int]);
                    }
                    let ghost cur: SqlState = (views(parts@), sql_views(binds@), idx as nat);
                    proof {
                        lemma_op_width(col@, m[j as int].0, m[j as int].1, idx as nat);
                    }
                    let r = build_operator_sql(col.as_str(), ops[j].0.as_str(), &ops[j].1, &mut idx);
                    match r {
                        Some((c, b)) => {
                            proof {
                                lemma_views_push(parts@, c);
                            }
                            parts.push(c);
                            let mut b = b;
                            proof {
                                lemma_sql_views_append(binds@, b@);
                            }
                            binds.append(&mut b);
                        },
                        None => {},
                    }
                    proof {
                        assert((views(parts@), sql_views(binds@), idx as nat) == step_operator(col@, m[j as int].0, m[j as int].1, cur));
                    }
                    j = j + 1;
                }
                assert(m.take(ops@.len() as int) =~= m);
            },
            _ => {},
        }
        i = i + 1;
    }
    assert(e.take(entries@.len() as int) =~= e);
    if parts.len() == 0 {
        (String::new(), Vec::new(), idx)
    } else {
        let c = join_strings(&parts, " AND ");
        (c, binds, idx)
    }
}

proof fn lemma_sql_views_append(a: Seq<SqlValue>, b: Seq<SqlValue>)
    ensures
        sql_views(a + b) == sql_views(a) + sql_views(b),
{
    assert(sql_views(a + b) =~= sql_views(a) + sql_views(b));
}

/// The WHERE clause of a filter on `table`, its bound values in placeholder
/// order, and the next free parameter number. Groups are parenthesised and
/// joined with ` AND ` / ` OR `; sub-filters without a clause are skipped.
pub fn build_filter_sql(filter: &Filter, d: Dialect, table: &str, param_idx: usize) -> (r: Result<(String, Vec<SqlValue>, usize), RunAstError>)
    requires
        param_idx + filter_width(filter.view()) <= usize::MAX,
    ensures
        r is Ok,
        ({
            let (c, b, n) = filter_sql(d, table@, filter.view(), param_idx as nat);
            &&& r->Ok_0.0@ == c
            &&& sql_views(r->Ok_0.1@) == b
            &&& r->Ok_0.2 == n
        }),
        r->Ok_0.2 <= param_idx + filter_width(filter.view()),
        r->Ok_0.2 == param_idx + r->Ok_0.1@.len(),
    decreases filter,
{
    proof {
        lemma_filter_aligned(d, table@, filter.view(), param_idx as nat);
    }
    match filter {
        Filter::Field(entries) => {
            proof {
                assert(filter.view()->Field_0 =~= members_view(entries@));
            }
            let (c, b, n) = build_field_sql(entries, d, table, param_idx);
            Ok((c, b, n))
        },
        Filter::And(subs) | Filter::Or(subs) => {
            let is_and = match filter {
                Filter::And(_) => true,
                _ => false,
            };
            let ghost sv: Seq<FilterSpec> = Seq::new(subs@.len(), |i: int| subs@[i].view());
            proof {
                if is_and {
                    assert(filter.view()->And_0 =~= sv);
                } else {
                    assert(filter.view()->Or_0 =~= sv);
                }
            }
            let mut parts: Vec<String> = Vec::new();
            let mut binds: Vec<SqlValue> = Vec::new();
            let mut idx: usize = param_idx;
            let mut k: usize = 0;
            assert(sv.take(0) =~= Seq::<FilterSpec>::empty());
            assert(sv.skip(0) =~= sv);
            while k < subs.len()
                invariant
                    sv == Seq::new(subs@.len(), |i: int| subs@[i].view()),
                    k <= subs@.len(),
                    (views(parts@), sql_views(binds@), idx as nat) == subs_sql(d, table@, sv.take(k as int), param_idx as nat),
                    idx + subs_width(sv.skip(k as int)) <= usize::MAX,
                    idx + subs_width(sv.skip(k as int)) <= param_idx + subs_width(sv),
                    forall|j: int| 0 <= j < subs@.len() ==> decreases_to!(*filter => subs@[j]),
                decreases subs@.len() - k,
            {
                proof {
                    assert(sv.skip(k as int).skip(1) =~= sv.skip(k as int + 1));
                    assert(sv.skip(k as int)[0] == sv[k as int]);
                    assert(sv.take(k as int + 1).drop_last() =~= sv.take(k as int));
                    assert(sv.take(k as int + 1)[k as int] == sv[k as int]);
                }
                let res = build_filter_sql(&subs[k], d, table, idx);
                let (c, mut b, n) = match res {
                    Ok(x) => x,
                    Err(e) => {
                        return Err(e);
                    },
                };
                if !c.as_str().is_empty() {
                    proof {
                        lemma_views_push(parts@, c);
                        lemma_sql_views_append(binds@, b@);
                    }
                    parts.push(c);
                    binds.append(&mut b);
                    idx = n;
                }
                k = k + 1;
            }
            assert(sv.take(subs@.len() as int) =~= sv);
            if parts.len() == 0 {
                Ok((String::new(), Vec::new(), idx))
            } else {
                let sep = if is_and { " AND " } else { " OR " };
                let joined = join_strings(&parts, sep);
                let c = concat3("(", joined.as_str(), ")");
                Ok((c, binds, idx))
            }
        },
    }
}

proof fn lemma_ops_width_skip(m: Seq<(Seq<char>, Json)>, k: int)
    requires
        0 <= k <= m.len(),
    ensures
        ops_width(m.skip(k)) <= ops_width(m),
    decreases k,
{
    if k > 0 {
        assert(m.skip(1).skip(k - 1) =~= m.skip(k));
        lemma_ops_width_skip(m.skip(1), k - 1);
    } else {
        assert(m.skip(0) =~= m);
    }
}

proof fn lemma_entries_width_skip(m: Seq<(Seq<char>, Json)>, k: int)
    requires
        0 <= k <= m.len(),
    ensures
        entries_width(m.skip(k)) <= entries_width(m),
    decreases k,
{
    if k > 0 {
        assert(m.skip(1).skip(k - 1) =~= m.skip(k));
        lemma_entries_width_skip(m.skip(1), k - 1);
    } else {
        assert(m.skip(0) =~= m);
    }
}

proof fn lemma_subs_width_skip(m: Seq<FilterSpec>, k: int)
    requires
        0 <= k <= m.len(),
    ensures
        subs_width(m.skip(k)) <= subs_width(m),
    decreases k,
{
    if k > 0 {
        assert(m.skip(1).skip(k - 1) =~= m.skip(k));
        lemma_subs_width_skip(m.skip(1), k - 1);
    } else {
        assert(m.skip(0) =~= m);
    }
}

/// The number of placeholders operator `op` writes for operand `v`.
fn operator_width(op: &str, v: &JsonValue) -> (r: usize)
    ensures
        r == op_width(op@, v@),
{
    if str_eq(op, "_eq") || str_eq(op, "_neq") {
        if v.is_null() { 0 } else { 1 }
    } else if str_eq(op, "_lt") || str_eq(op, "_lte") || str_eq(op, "_gt") || str_eq(op, "_gte")
        || str_eq(op, "_contains") || str_eq(op, "_icontains") || str_eq(op, "_starts_with")
        || str_eq(op, "_ends_with") {
        1
    } else if str_eq(op, "_in") {
        match v {
            JsonValue::Array(a) => {
                proof {
                    crate::json::lemma_array_view(a);
                }
                a.len()
            },
            _ => 0,
        }
    } else if str_eq(op, "_between") {
        match v {
            JsonValue::Array(a) => {
                proof {
                    crate::json::lemma_array_view(a);
                }
                if a.len() == 2 { 2 } else { 0 }
            },
            _ => 0,
        }
    } else {
        0
    }
}

/// The number of placeholders the operators of an operator object write; `None` when that exceeds `usize::MAX`.
fn checked_ops_width(ops: &Vec<(String, JsonValue)>) -> (r: Option<usize>)
    ensures
        match r {
            Some(w) => w == ops_width(members_view(ops@)),
            None => ops_width(members_view(ops@)) > usize::MAX,
        },
{
    let ghost m = members_view(ops@);
    let mut acc: usize = 0;
    let mut j: usize = ops.len();
    assert(m.skip(m.len() as int) =~= Seq::<(Seq<char>, Json)>::empty());
    while j > 0
        invariant
            m == members_view(ops@),
            j <= ops@.len(),
            acc == ops_width(m.skip(j as int)),
        decreases j,
    {
        let ghost t = m.skip(j as int - 1);
        assert(t.skip(1) =~= m.skip(j as int));
        assert(t[0] == m[j as int - 1]);
        let w: usize = operator_width(ops[j - 1].0.as_str(), &ops[j - 1].1);
        if acc > usize::MAX - w {
            proof {
                lemma_ops_width_skip(m, j as int - 1);
            }
            return None;
        }
        acc = acc + w;
        j = j - 1;
    }
    assert(m.skip(0) =~= m);
    Some(acc)
}

/// The most parameter numbers that a filter can consume; `None` when that
/// exceeds `usize::MAX`.
pub fn checked_filter_width(f: &Filter) -> (r: Option<usize>)
    ensures
        match r {
            Some(w) => w == filter_width(f.view()),
            None => filter_width(f.view()) > usize::MAX,
        },
    decreases f,
{
    match f {
        Filter::Field(entries) => {
            let ghost m = members_view(entries@);
            assert(f.view()->Field_0 =~= m);
            assert(filter_width(f.view()) == entries_width(m));
            let mut acc: usize = 0;
            let mut j: usize = entries.len();
            assert(m.skip(m.len() as int) =~= Seq::<(Seq<char>, Json)>::empty());
            while j > 0
                invariant
                    m == members_view(entries@),
                    filter_width(f.view()) == entries_width(m),
                    j <= entries@.len(),
                    acc == entries_width(m.skip(j as int)),
                decreases j,
            {
                let ghost t = m.skip(j as int - 1);
                assert(t.skip(1) =~= m.skip(j as int));
                assert(t[0] == m[j as int - 1]);
                let w: usize = match &entries[j - 1].1 {
                    JsonValue::Object(ops) => {
                        proof {
                            lemma_object_view(ops);
                        }
                        match checked_ops_width(ops) {
                            Some(w) => w,
                            None => {
                                proof {
                                    assert(m[j as int - 1].1 == Json::Obj(members_view(ops@)));
                                    assert(entries_width(t) > usize::MAX);
                                    lemma_entries_width_skip(m, j as int - 1);
                                    assert(filter_width(f.view()) == entries_width(m));
                                }
                                return None;
                            },
                        }
                    },
                    _ => 0,
                };
                assert(entries_width(t) == w + acc);
                if acc > usize::MAX - w {
                    proof {
                        lemma_entries_width_skip(m, j as int - 1);
                        assert(filter_width(f.view()) == entries_width(m));
                    }
                    return None;
                }
                acc = acc + w;
                j = j - 1;
            }
            assert(m.skip(0) =~= m);
            Some(acc)
        },
        Filter::And(subs) | Filter::Or(subs) => {
            let ghost sv: Seq<FilterSpec> = Seq::new(subs@.len(), |i: int| subs@[i].view());
            proof {
                if f is And {
                    assert(f.view()->And_0 =~= sv);
                } else {
                    assert(f.view()->Or_0 =~= sv);
                }
                assert(filter_width(f.view()) == subs_width(sv));
            }
            let mut acc: usize = 0;
            let mut j: usize = subs.len();
            assert(sv.skip(sv.len() as int) =~= Seq::<FilterSpec>::empty());
            while j > 0
                invariant
                    sv == Seq::new(subs@.len(), |i: int| subs@[i].view()),
                    filter_width(f.view()) == subs_width(sv),
                    j <= subs@.len(),
                    acc == subs_width(sv.skip(j as int)),
                    forall|i: int| 0 <= i < subs@.len() ==> decreases_to!(*f => subs@[i]),
                decreases j,
            {
                let ghost t = sv.skip(j as int - 1);
                assert(t.skip(1) =~= sv.skip(j as int));
                assert(t[0] == sv[j as int - 1]);
                let w: usize = match checked_filter_width(&subs[j - 1]) {
                    Some(w) => w,
                    None => {
                        proof {
                            assert(subs_width(t) > usize::MAX);
                            lemma_subs_width_skip(sv, j as int - 1);
                            assert(filter_width(f.view()) == subs_width(sv));
                        }
                        return None;
                    },
                };
                if acc > usize::MAX - w {
                    proof {
                        assert(subs_width(t) == w + acc);
                        lemma_subs_width_skip(sv, j as int - 1);
                        assert(filter_width(f.view()) == subs_width(sv));
                    }
                    return None;
                }
                acc = acc + w;
                j = j - 1;
            }
            assert(sv.skip(0) =~= sv);
            Some(acc)
        },
    }
}

proof fn lemma_op_aligned(q: Seq<char>, op: Seq<char>, val: Json, idx: nat)
    ensures
        match operator_sql(q, op, val, idx) {
            Some((c, b, n)) => n == idx + b.len(),
            None => true,
        },
{
}

proof fn lemma_ops_aligned(q: Seq<char>, ops: Seq<(Seq<char>, Json)>, st: SqlState)
    ensures
        ({
            let r = ops_sql(q, ops, st);
            &&& r.2 - r.1.len() == st.2 - st.1.len()
            &&& r.0.len() >= st.0.len()
            &&& r.0.len() == st.0.len() ==> r == st
        }),
    decreases ops.len(),
{
    if ops.len() > 0 {
        let d = ops.drop_last();
        lemma_ops_aligned(q, d, st);
        let last = ops[ops.len() - 1];
        lemma_op_aligned(q, last.0, last.1, ops_sql(q, d, st).2);
    }
}

proof fn lemma_entries_aligned(d: Dialect, table: Seq<char>, entries: Seq<(Seq<char>, Json)>, st: SqlState)
    ensures
        ({
            let r = entries_sql(d, table, entries, st);
            &&& r.2 - r.1.len() == st.2 - st.1.len()
            &&& r.0.len() >= st.0.len()
            &&& r.0.len() == st.0.len() ==> r == st
        }),
    decreases entries.len(),
{
    if entries.len() > 0 {
        let e = entries.drop_last();
        lemma_entries_aligned(d, table, e, st);
        let last = entries[entries.len() - 1];
        match last.1 {
            Json::Obj(ops) => {
                lemma_ops_aligned(column(d, table, last.0), ops, entries_sql(d, table, e, st));
            },
            _ => {},
        }
    }
}

proof fn lemma_filter_aligned(d: Dialect, table: Seq<char>, f: FilterSpec, idx: nat)
    ensures
        filter_sql(d, table, f, idx).2 == idx + filter_sql(d, table, f, idx).1.len(),
    decreases f, 1nat,
{
    match f {
        FilterSpec::And(subs) => {
            lemma_subs_aligned(d, table, subs, idx);
        },
        FilterSpec::Or(subs) => {
            lemma_subs_aligned(d, table, subs, idx);
        },
        FilterSpec::Field(entries) => {
            lemma_entries_aligned(d, table, entries, (seq![], seq![], idx));
        },
    }
}

proof fn lemma_subs_aligned(d: Dialect, table: Seq<char>, subs: Seq<FilterSpec>, idx: nat)
    ensures
        ({
            let st = subs_sql(d, table, subs, idx);
            &&& st.2 == idx + st.1.len()
            &&& st.0.len() == 0 ==> st.1.len() == 0
        }),
    decreases subs, 0nat,
{
    if subs.len() > 0 {
        lemma_subs_aligned(d, table, subs.drop_last(), idx);
        let before = subs_sql(d, table, subs.drop_last(), idx);
        lemma_filter_aligned(d, table, subs[subs.len() - 1], before.2);
    }
}

/// Each placeholder has its bound value: walking a filter from parameter
/// `idx` moves the next free parameter on by exactly the number of values it
/// binds, every operator binding one value per placeholder it writes.
pub proof fn lemma_filter_params_match_bindings(d: Dialect, table: Seq<char>, f: FilterSpec, idx: nat)
    ensures
        filter_sql(d, table, f, idx).2 == idx + filter_sql(d, table, f, idx).1.len(),
{
    lemma_filter_aligned(d, table, f, idx);
}

} // verus!
