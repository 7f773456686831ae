//! Where the positional placeholders of generated SQL stand: a clause built
//! from parameter `k` holds exactly `$k`, `$k+1`, ..., each once and in
//! order, and the n-th of them is the one the n-th bound value belongs to.

use vstd::prelude::*;
use vstd::string::*;
use crate::json::Json;
use crate::text::join;
use super::query::FilterSpec;
use super::sql::{
    column, entries_sql, filter_sql, group_sql, operator_sql, ops_sql, param, params_from, step_operator, subs_sql,
    SqlState,
};
use super::{quote, Dialect};

verus! {

/// Whether `s` holds no `$`.
pub open spec fn no_dollar(s: Seq<char>) -> bool {
    forall|i: int| 0 <= i < s.len() ==> #[trigger] s[i] != '$'
}

/// Whether `s` does not begin with a decimal digit.
pub open spec fn no_digit_start(s: Seq<char>) -> bool {
    s.len() == 0 || !('0' <= s[0] && s[0] <= '9')
}

/// `texts[0] + ps[0] + texts[1] + ... + ps[n-1] + texts[n]`.
pub open spec fn weave(texts: Seq<Seq<char>>, ps: Seq<Seq<char>>) -> Seq<char>
    decreases ps.len(),
{
    if ps.len() == 0 {
        if texts.len() > 0 { texts[0] } else { seq![] }
    } else {
        weave(texts.take(ps.len() as int), ps.drop_last()) + ps.last() + texts[ps.len() as int]
    }
}

/// Texts that may stand between placeholders: none holds `$`, and none that
/// follows a placeholder begins with a digit (so each placeholder's number
/// ends where its text ends).
pub open spec fn between_texts(texts: Seq<Seq<char>>) -> bool {
    &&& forall|i: int| 0 <= i < texts.len() ==> no_dollar(#[trigger] texts[i])
    &&& forall|i: int| 1 <= i < texts.len() ==> no_digit_start(#[trigger] texts[i])
}

/// `c` holds exactly the placeholders `$k`, ..., `$(k+n-1)`, each once and in
/// increasing order, and no other `$`.
pub open spec fn placeholders_are(c: Seq<char>, k: nat, n: nat) -> bool {
    exists|texts: Seq<Seq<char>>| #![trigger weave(texts, params_from(k, n))]
        texts.len() == n + 1 && between_texts(texts) && c == weave(texts, params_from(k, n))
}

proof fn lemma_params_drop_last(k: nat, n: nat)
    requires
        n > 0,
    ensures
        params_from(k, n).drop_last() == params_from(k, (n - 1) as nat),
        params_from(k, n).last() == param((k + n - 1) as nat),
{
    assert(params_from(k, n).drop_last() =~= params_from(k, (n - 1) as nat));
}

/// Text without `$` holds no placeholder.
proof fn lemma_plain(c: Seq<char>, k: nat)
    requires
        no_dollar(c),
    ensures
        placeholders_are(c, k, 0),
{
    let texts = seq![c];
    assert(between_texts(texts));
    assert(c == weave(texts, params_from(k, 0)));
}

/// `$k` alone.
proof fn lemma_single(k: nat)
    ensures
        placeholders_are(param(k), k, 1),
{
    let texts: Seq<Seq<char>> = seq![seq![], seq![]];
    let ps = params_from(k, 1);
    lemma_params_drop_last(k, 1);
    assert(texts.take(1) =~= seq![Seq::<char>::empty()]);
    assert(weave(texts.take(1), ps.drop_last()) == Seq::<char>::empty());
    assert(weave(texts, ps) =~= param(k));
    assert(between_texts(texts));
}

/// Text without `$` around a clause keeps its placeholders.
proof fn lemma_wrap(c: Seq<char>, k: nat, n: nat, a: Seq<char>, b: Seq<char>)
    requires
        placeholders_are(c, k, n),
        no_dollar(a),
        no_dollar(b),
        no_digit_start(b),
    ensures
        placeholders_are(a + c + b, k, n),
    decreases n,
{
    let texts = choose|texts: Seq<Seq<char>>| #![trigger weave(texts, params_from(k, n))]
        texts.len() == n + 1 && between_texts(texts) && c == weave(texts, params_from(k, n));
    let t2 = if n == 0 {
        seq![a + texts[0] + b]
    } else {
        seq![a + texts[0]] + texts.subrange(1, n as int) + seq![texts[n as int] + b]
    };
    assert(t2.len() == n + 1);
    assert forall|i: int| 0 <= i < t2.len() implies no_dollar(#[trigger] t2[i]) by {
        if n == 0 {
            assert forall|j: int| 0 <= j < t2[i].len() implies #[trigger] t2[i][j] != '$' by {
                if j < a.len() {
                } else if j < a.len() + texts[0].len() {
                    assert(t2[i][j] == texts[0][j - a.len()]);
                } else {
                    assert(t2[i][j] == b[j - a.len() - texts[0].len()]);
                }
            }
        } else if i == 0 {
            assert forall|j: int| 0 <= j < t2[i].len() implies #[trigger] t2[i][j] != '$' by {
                if j >= a.len() {
                    assert(t2[i][j] == texts[0][j - a.len()]);
                }
            }
        } else if i == n {
            assert forall|j: int| 0 <= j < t2[i].len() implies #[trigger] t2[i][j] != '$' by {
                if j < texts[n as int].len() {
                    assert(t2[i][j] == texts[n as int][j]);
                } else {
                    assert(t2[i][j] == b[j - texts[n as int].len()]);
                }
            }
        } else {
            assert(t2[i] == texts[i]);
        }
    }
    assert forall|i: int| 1 <= i < t2.len() implies no_digit_start(#[trigger] t2[i]) by {
        if i == n {
            assert(no_digit_start(texts[n as int]));
            if texts[n as int].len() > 0 {
                assert(t2[i][0] == texts[n as int][0]);
            } else {
                assert(t2[i] =~= b);
            }
        } else {
            assert(t2[i] == texts[i]);
        }
    }
    lemma_wrap_weave(texts, a, b, k, n);
    assert(a + c + b == weave(t2, params_from(k, n)));
}

proof fn lemma_wrap_weave(texts: Seq<Seq<char>>, a: Seq<char>, b: Seq<char>, k: nat, n: nat)
    requires
        texts.len() == n + 1,
    ensures
        a + weave(texts, params_from(k, n)) + b == weave(
            if n == 0 {
                seq![a + texts[0] + b]
            } else {
                seq![a + texts[0]] + texts.subrange(1, n as int) + seq![texts[n as int] + b]
            },
            params_from(k, n),
        ),
    decreases n,
{
    if n == 0 {
        assert(a + texts[0] + b =~= a + texts[0] + b);
    } else {
        let t2 = seq![a + texts[0]] + texts.subrange(1, n as int) + seq![texts[n as int] + b];
        lemma_params_drop_last(k, n);
        let ni = n as int;
        // The woven prefix with `a` in front and nothing behind.
        lemma_prefix_weave(texts.take(ni), a, k, (n - 1) as nat);
        let tp = seq![a + texts.take(ni)[0]] + texts.take(ni).skip(1);
        assert(t2.take(ni) =~= tp) by {
            assert forall|i: int| 0 <= i < ni implies t2.take(ni)[i] == tp[i] by {
                if i == 0 {
                } else {
                    assert(t2[i] == texts[i]);
                }
            }
        }
        assert(t2[ni] == texts[ni] + b);
        assert(a + weave(texts, params_from(k, n)) + b =~= (a + weave(texts.take(ni), params_from(k, (n - 1) as nat))) + param((k + n - 1) as nat) + (texts[ni] + b));
    }
}

proof fn lemma_prefix_weave(texts: Seq<Seq<char>>, a: Seq<char>, k: nat, n: nat)
    requires
        texts.len() == n + 1,
    ensures
        a + weave(texts, params_from(k, n)) == weave(seq![a + texts[0]] + texts.skip(1), params_from(k, n)),
    decreases n,
{
    let t2 = seq![a + texts[0]] + texts.skip(1);
    if n == 0 {
    } else {
        let ni = n as int;
        lemma_params_drop_last(k, n);
        lemma_prefix_weave(texts.take(ni), a, k, (n - 1) as nat);
        assert(t2.take(ni) =~= seq![a + texts.take(ni)[0]] + texts.take(ni).skip(1));
        assert(t2[ni] == texts[ni]);
        assert(a + weave(texts, params_from(k, n)) =~= (a + weave(texts.take(ni), params_from(k, (n - 1) as nat))) + param((k + n - 1) as nat) + texts[ni]);
    }
}

/// Two numbered clauses joined by a separator: the placeholders of the
/// first, then those of the second.
proof fn lemma_concat(c1: Seq<char>, k: nat, n1: nat, c2: Seq<char>, n2: nat, sep: Seq<char>)
    requires
        placeholders_are(c1, k, n1),
        placeholders_are(c2, k + n1, n2),
        no_dollar(sep),
        sep.len() > 0,
        no_digit_start(sep),
    ensures
        placeholders_are(c1 + sep + c2, k, n1 + n2),
{
    let t1 = choose|texts: Seq<Seq<char>>| #![trigger weave(texts, params_from(k, n1))]
        texts.len() == n1 + 1 && between_texts(texts) && c1 == weave(texts, params_from(k, n1));
    let t2 = choose|texts: Seq<Seq<char>>| #![trigger weave(texts, params_from(k + n1, n2))]
        texts.len() == n2 + 1 && between_texts(texts) && c2 == weave(texts, params_from(k + n1, n2));
    lemma_concat_weave(t1, t2, k, n1, n2, sep);
    let t = t1.take(n1 as int) + seq![t1[n1 as int] + sep + t2[0]] + t2.skip(1);
    assert(t.len() == n1 + n2 + 1);
    assert forall|i: int| 0 <= i < t.len() implies no_dollar(#[trigger] t[i]) by {
        if i < n1 {
            assert(t[i] == t1[i]);
        } else if i == n1 {
            let m = t1[n1 as int];
            assert forall|j: int| 0 <= j < t[i].len() implies #[trigger] t[i][j] != '$' by {
                if j < m.len() {
                    assert(t[i][j] == m[j]);
                } else if j < m.len() + sep.len() {
                    assert(t[i][j] == sep[j - m.len()]);
                } else {
                    assert(t[i][j] == t2[0][j - m.len() - sep.len()]);
                }
            }
        } else {
            assert(t[i] == t2[i - n1]);
        }
    }
    assert forall|i: int| 1 <= i < t.len() implies no_digit_start(#[trigger] t[i]) by {
        if i < n1 {
            assert(t[i] == t1[i]);
        } else if i == n1 {
            let m = t1[n1 as int];
            if m.len() > 0 {
                assert(no_digit_start(m));
                assert(t[i][0] == m[0]);
            } else {
                assert(t[i][0] == sep[0]);
            }
        } else {
            assert(t[i] == t2[i - n1]);
        }
    }
}

proof fn lemma_concat_weave(t1: Seq<Seq<char>>, t2: Seq<Seq<char>>, k: nat, n1: nat, n2: nat, sep: Seq<char>)
    requires
        t1.len() == n1 + 1,
        t2.len() == n2 + 1,
    ensures
        weave(t1, params_from(k, n1)) + sep + weave(t2, params_from(k + n1, n2)) == weave(
            t1.take(n1 as int) + seq![t1[n1 as int] + sep + t2[0]] + t2.skip(1),
            params_from(k, n1 + n2),
        ),
    decreases n2,
{
    let t = t1.take(n1 as int) + seq![t1[n1 as int] + sep + t2[0]] + t2.skip(1);
    if n2 == 0 {
        assert(t =~= t1.take(n1 as int) + seq![t1[n1 as int] + sep + t2[0]]);
        lemma_suffix_weave(t1, sep + t2[0], k, n1);
        assert((t1[n1 as int] + sep) + t2[0] =~= t1[n1 as int] + (sep + t2[0]));
        assert(t1.take(n1 as int) + seq![t1[n1 as int] + (sep + t2[0])] =~= t);
        assert(weave(t1, params_from(k, n1)) + (sep + t2[0]) =~= weave(t1, params_from(k, n1)) + sep + t2[0]);
    } else {
        let m = n2 as int;
        lemma_params_drop_last(k + n1, n2);
        lemma_params_drop_last(k, n1 + n2);
        lemma_concat_weave(t1, t2.take(m), k, n1, (n2 - 1) as nat, sep);
        let tp = t1.take(n1 as int) + seq![t1[n1 as int] + sep + t2.take(m)[0]] + t2.take(m).skip(1);
        assert(t.take(n1 + m) =~= tp);
        assert(t[n1 + m] == t2[m]);
        assert((k + n1 + n2 - 1) as nat == (k + n1) + n2 - 1);
        assert(weave(t1, params_from(k, n1)) + sep + weave(t2, params_from(k + n1, n2)) =~= (weave(t1, params_from(k, n1)) + sep + weave(t2.take(m), params_from(k + n1, (n2 - 1) as nat))) + param((k + n1 + n2 - 1) as nat) + t2[m]);
    }
}

proof fn lemma_suffix_weave(texts: Seq<Seq<char>>, b: Seq<char>, k: nat, n: nat)
    requires
        texts.len() == n + 1,
    ensures
        weave(texts, params_from(k, n)) + b == weave(texts.take(n as int) + seq![texts[n as int] + b], params_from(k, n)),
{
    let t2 = texts.take(n as int) + seq![texts[n as int] + b];
    if n == 0 {
    } else {
        let ni = n as int;
        lemma_params_drop_last(k, n);
        assert(t2.take(ni) =~= texts.take(ni));
        assert(t2[ni] == texts[ni] + b);
        assert(weave(texts, params_from(k, n)) + b =~= weave(texts.take(ni), params_from(k, (n - 1) as nat)) + param((k + n - 1) as nat) + (texts[ni] + b));
    }
}

/// The fixed texts of clauses hold no `$`, and the separators that follow
/// placeholders begin with no digit.
proof fn lemma_literals()
    ensures
        no_dollar(" IS NULL"@),
        no_dollar(" IS NOT NULL"@),
        no_dollar(" = "@),
        no_dollar(" != "@),
        no_dollar(" < "@),
        no_dollar(" <= "@),
        no_dollar(" > "@),
        no_dollar(" >= "@),
        no_dollar(" IN ("@),
        no_dollar(")"@),
        no_dollar(", "@),
        no_dollar(" LIKE "@),
        no_dollar(" ILIKE "@),
        no_dollar(" BETWEEN "@),
        no_dollar(" AND "@),
        no_dollar("("@),
        no_dollar(" IS NULL OR "@),
        no_dollar(" = '')"@),
        no_dollar(" IS NOT NULL AND "@),
        no_dollar(" != '')"@),
        no_dollar(" OR "@),
        no_dollar("."@),
        no_dollar("\""@),
        no_dollar("`"@),
        no_dollar("["@),
        no_dollar("]"@),
        no_digit_start(")"@), no_digit_start(", "@), no_digit_start(" AND "@), no_digit_start(" OR "@),
        ", "@.len() > 0, " AND "@.len() > 0, " OR "@.len() > 0,
{
    reveal_strlit(" IS NULL");
    reveal_strlit(" IS NOT NULL");
    reveal_strlit(" = ");
    reveal_strlit(" != ");
    reveal_strlit(" < ");
    reveal_strlit(" <= ");
    reveal_strlit(" > ");
    reveal_strlit(" >= ");
    reveal_strlit(" IN (");
    reveal_strlit(")");
    reveal_strlit(", ");
    reveal_strlit(" LIKE ");
    reveal_strlit(" ILIKE ");
    reveal_strlit(" BETWEEN ");
    reveal_strlit(" AND ");
    reveal_strlit("(");
    reveal_strlit(" IS NULL OR ");
    reveal_strlit(" = '')");
    reveal_strlit(" IS NOT NULL AND ");
    reveal_strlit(" != '')");
    reveal_strlit(" OR ");
    reveal_strlit(".");
    reveal_strlit("\"");
    reveal_strlit("`");
    reveal_strlit("[");
    reveal_strlit("]");
}

proof fn lemma_no_dollar_add(a: Seq<char>, b: Seq<char>)
    requires
        no_dollar(a),
        no_dollar(b),
    ensures
        no_dollar(a + b),
{
    assert forall|i: int| 0 <= i < (a + b).len() implies #[trigger] (a + b)[i] != '$' by {
        if i >= a.len() {
            assert((a + b)[i] == b[i - a.len()]);
        }
    }
}

/// A quoted identifier holds no `$` when the name holds none.
proof fn lemma_quote(d: Dialect, name: Seq<char>)
    requires
        no_dollar(name),
    ensures
        no_dollar(quote(d, name)),
{
    lemma_literals();
    match d {
        Dialect::MySQL => {
            lemma_no_dollar_add(seq!['`'], name);
            lemma_no_dollar_add(seq!['`'] + name, seq!['`']);
        },
        Dialect::MSSQL => {
            lemma_no_dollar_add(seq!['['], name);
            lemma_no_dollar_add(seq!['['] + name, seq![']']);
        },
        _ => {
            lemma_no_dollar_add(seq!['"'], name);
            lemma_no_dollar_add(seq!['"'] + name, seq!['"']);
        },
    }
}

/// A table-qualified column holds no `$` when the names hold none.
proof fn lemma_column(d: Dialect, table: Seq<char>, field: Seq<char>)
    requires
        no_dollar(table),
        no_dollar(field),
    ensures
        no_dollar(column(d, table, field)),
{
    lemma_literals();
    lemma_quote(d, table);
    lemma_quote(d, field);
    lemma_no_dollar_add(quote(d, table), "."@);
    lemma_no_dollar_add(quote(d, table) + "."@, quote(d, field));
}

/// `pre` followed by `$k`.
proof fn lemma_after(pre: Seq<char>, k: nat)
    requires
        no_dollar(pre),
    ensures
        placeholders_are(pre + param(k), k, 1),
{
    lemma_single(k);
    lemma_wrap(param(k), k, 1, pre, seq![]);
    assert(pre + param(k) + Seq::<char>::empty() =~= pre + param(k));
}

/// The placeholders `$k`, ..., `$(k+n-1)` joined by a separator.
proof fn lemma_join_params(k: nat, n: nat, sep: Seq<char>)
    requires
        no_dollar(sep),
        sep.len() > 0,
        no_digit_start(sep),
    ensures
        placeholders_are(join(params_from(k, n), sep), k, n),
    decreases n,
{
    if n == 0 {
        assert(no_dollar(Seq::<char>::empty()));
        lemma_plain(seq![], k);
    } else if n == 1 {
        lemma_single(k);
        assert(join(params_from(k, 1), sep) == params_from(k, 1)[0]);
    } else {
        lemma_params_drop_last(k, n);
        lemma_join_params(k, (n - 1) as nat, sep);
        lemma_single((k + n - 1) as nat);
        lemma_concat(join(params_from(k, (n - 1) as nat), sep), k, (n - 1) as nat, param((k + n - 1) as nat), 1, sep);
    }
}

/// The placeholders of an operator's clause: for a column without `$`,
/// a clause written from parameter `k` that moves the counter to `n` holds
/// exactly `$k`, ..., `$(n-1)`, once each and in order, and binds one value
/// for each of them.
pub proof fn lemma_operator_placeholders(q: Seq<char>, op: Seq<char>, val: Json, k: nat)
    requires
        no_dollar(q),
    ensures
        match operator_sql(q, op, val, k) {
            Some((c, b, n)) => n >= k && placeholders_are(c, k, (n - k) as nat) && b.len() == n - k,
            None => true,
        },
{
    lemma_literals();
    super::sql::lemma_operator_names();
    match operator_sql(q, op, val, k) {
        None => {},
        Some((c, b, n)) => {
            if n == k {
                // A clause without placeholders is the column and fixed text.
                lemma_bare_clause(q, op, val, k);
                lemma_plain(c, k);
                assert(b.len() == 0);
                assert(placeholders_are(c, k, (n - k) as nat));
            } else if op == "_in"@ {
                let a = val->Arr_0;
                lemma_join_params(k, a.len(), ", "@);
                lemma_no_dollar_add(q, " IN ("@);
                lemma_wrap(join(params_from(k, a.len()), ", "@), k, a.len(), q + " IN ("@, ")"@);
                assert(placeholders_are(c, k, (n - k) as nat));
                assert(b.len() == n - k);
            } else if op == "_between"@ {
                lemma_no_dollar_add(q, " BETWEEN "@);
                lemma_after(q + " BETWEEN "@, k);
                lemma_single(k + 1);
                lemma_concat(q + " BETWEEN "@ + param(k), k, 1, param(k + 1), 1, " AND "@);
                assert(placeholders_are(c, k, (n - k) as nat));
            } else {
                lemma_single_clause(q, op, val, k);
            }
        },
    }
}

proof fn lemma_bare_clause(q: Seq<char>, op: Seq<char>, val: Json, k: nat)
    requires
        no_dollar(q),
        operator_sql(q, op, val, k) matches Some((c, b, n)) && n == k,
    ensures
        operator_sql(q, op, val, k) matches Some((c, b, n)) && no_dollar(c),
{
    lemma_literals();
    lemma_no_dollar_add(q, " IS NULL"@);
    lemma_no_dollar_add(q, " IS NOT NULL"@);
    lemma_no_dollar_add(q, " IN ("@);
    lemma_no_dollar_add(q + " IN ("@, ")"@);
    lemma_no_dollar_add("("@, q);
    lemma_no_dollar_add("("@ + q, " IS NULL OR "@);
    lemma_no_dollar_add("("@ + q + " IS NULL OR "@, q);
    lemma_no_dollar_add("("@ + q + " IS NULL OR "@ + q, " = '')"@);
    lemma_no_dollar_add("("@ + q, " IS NOT NULL AND "@);
    lemma_no_dollar_add("("@ + q + " IS NOT NULL AND "@, q);
    lemma_no_dollar_add("("@ + q + " IS NOT NULL AND "@ + q, " != '')"@);
    if op == "_in"@ {
        assert(join(params_from(k, 0), ", "@) =~= Seq::<char>::empty());
        assert(q + " IN ("@ + Seq::<char>::empty() + ")"@ =~= q + " IN ("@ + ")"@);
    }
}

proof fn lemma_single_clause(q: Seq<char>, op: Seq<char>, val: Json, k: nat)
    requires
        no_dollar(q),
        operator_sql(q, op, val, k) matches Some((c, b, n)) && n == k + 1,
        op != "_in"@,
        op != "_between"@,
    ensures
        operator_sql(q, op, val, k) matches Some((c, b, n)) && placeholders_are(c, k, 1) && b.len() == 1,
{
    lemma_literals();
    super::sql::lemma_operator_names();
    lemma_no_dollar_add(q, " = "@);
    lemma_no_dollar_add(q, " != "@);
    lemma_no_dollar_add(q, " < "@);
    lemma_no_dollar_add(q, " <= "@);
    lemma_no_dollar_add(q, " > "@);
    lemma_no_dollar_add(q, " >= "@);
    lemma_no_dollar_add(q, " LIKE "@);
    lemma_no_dollar_add(q, " ILIKE "@);
    lemma_after(q + " = "@, k);
    lemma_after(q + " != "@, k);
    lemma_after(q + " < "@, k);
    lemma_after(q + " <= "@, k);
    lemma_after(q + " > "@, k);
    lemma_after(q + " >= "@, k);
    lemma_after(q + " LIKE "@, k);
    lemma_after(q + " ILIKE "@, k);
}

/// Whether no field name of a filter holds `$`.
pub open spec fn filter_names_ok(f: FilterSpec) -> bool
    decreases f,
{
    match f {
        FilterSpec::And(subs) => subs_names_ok(subs),
        FilterSpec::Or(subs) => subs_names_ok(subs),
        FilterSpec::Field(entries) => forall|i: int| 0 <= i < entries.len() ==> no_dollar(#[trigger] entries[i].0),
    }
}

/// Whether no field name of a list of sub-filters holds `$`.
pub open spec fn subs_names_ok(subs: Seq<FilterSpec>) -> bool
    decreases subs,
{
    if subs.len() == 0 {
        true
    } else {
        subs_names_ok(subs.drop_last()) && filter_names_ok(subs[subs.len() - 1])
    }
}

/// A separator that may stand after a placeholder.
pub open spec fn separator(sep: Seq<char>) -> bool {
    no_dollar(sep) && sep.len() > 0 && no_digit_start(sep)
}

/// A walk state from parameter `k`: its clauses, joined by `sep`, hold the
/// placeholders `$k` up to the next free parameter, and with no clause yet
/// the counter has not moved.
pub open spec fn numbered(st: SqlState, k: nat, sep: Seq<char>) -> bool {
    &&& st.2 >= k
    &&& st.0.len() == 0 ==> st.2 == k
    &&& placeholders_are(join(st.0, sep), k, (st.2 - k) as nat)
}

proof fn lemma_push_clause(cs: Seq<Seq<char>>, k: nat, m: nat, c: Seq<char>, n: nat, sep: Seq<char>)
    requires
        separator(sep),
        cs.len() == 0 ==> m == k,
        m >= k,
        placeholders_are(join(cs, sep), k, (m - k) as nat),
        n >= m,
        placeholders_are(c, m, (n - m) as nat),
    ensures
        placeholders_are(join(cs.push(c), sep), k, (n - k) as nat),
{
    if cs.len() == 0 {
        assert(cs.push(c) =~= seq![c]);
    } else {
        assert(cs.push(c).drop_last() =~= cs);
        lemma_concat(join(cs, sep), k, (m - k) as nat, c, (n - m) as nat, sep);
    }
}

proof fn lemma_ops_numbered(q: Seq<char>, ops: Seq<(Seq<char>, Json)>, st: SqlState, k: nat, sep: Seq<char>)
    requires
        no_dollar(q),
        separator(sep),
        numbered(st, k, sep),
    ensures
        numbered(ops_sql(q, ops, st), k, sep),
    decreases ops.len(),
{
    if ops.len() > 0 {
        lemma_ops_numbered(q, ops.drop_last(), st, k, sep);
        let mid = ops_sql(q, ops.drop_last(), st);
        let (op, val) = ops.last();
        lemma_operator_placeholders(q, op, val, mid.2);
        match operator_sql(q, op, val, mid.2) {
            Some((c, b, n)) => {
                lemma_push_clause(mid.0, k, mid.2, c, n, sep);
            },
            None => {},
        }
    }
}

proof fn lemma_entries_numbered(d: Dialect, table: Seq<char>, entries: Seq<(Seq<char>, Json)>, st: SqlState, k: nat, sep: Seq<char>)
    requires
        no_dollar(table),
        forall|i: int| 0 <= i < entries.len() ==> no_dollar(#[trigger] entries[i].0),
        separator(sep),
        numbered(st, k, sep),
    ensures
        numbered(entries_sql(d, table, entries, st), k, sep),
    decreases entries.len(),
{
    if entries.len() > 0 {
        let e = entries.drop_last();
        assert forall|i: int| 0 <= i < e.len() implies no_dollar(#[trigger] e[i].0) by {
            assert(e[i] == entries[i]);
        }
        lemma_entries_numbered(d, table, e, st, k, sep);
        let last = entries[entries.len() - 1];
        match last.1 {
            Json::Obj(ops) => {
                assert(no_dollar(entries[entries.len() - 1].0));
                lemma_column(d, table, last.0);
                lemma_ops_numbered(column(d, table, last.0), ops, entries_sql(d, table, e, st), k, sep);
            },
            _ => {},
        }
    }
}

proof fn lemma_empty_join(k: nat, sep: Seq<char>)
    ensures
        placeholders_are(join(Seq::<Seq<char>>::empty(), sep), k, 0),
{
    assert(no_dollar(Seq::<char>::empty()));
    lemma_plain(seq![], k);
}

proof fn lemma_filter_numbered(d: Dialect, table: Seq<char>, f: FilterSpec, k: nat)
    requires
        no_dollar(table),
        filter_names_ok(f),
    ensures
        filter_sql(d, table, f, k).2 >= k,
        placeholders_are(filter_sql(d, table, f, k).0, k, (filter_sql(d, table, f, k).2 - k) as nat),
    decreases f, 1nat,
{
    lemma_literals();
    match f {
        FilterSpec::And(subs) => {
            lemma_group(d, table, subs, k, " AND "@);
        },
        FilterSpec::Or(subs) => {
            lemma_group(d, table, subs, k, " OR "@);
        },
        FilterSpec::Field(entries) => {
            lemma_empty_join(k, " AND "@);
            lemma_entries_numbered(d, table, entries, (seq![], seq![], k), k, " AND "@);
            let st = entries_sql(d, table, entries, (seq![], seq![], k));
            if st.0.len() == 0 {
                lemma_plain(Seq::<char>::empty(), k);
            }
        },
    }
}

proof fn lemma_group(d: Dialect, table: Seq<char>, subs: Seq<FilterSpec>, k: nat, sep: Seq<char>)
    requires
        no_dollar(table),
        subs_names_ok(subs),
        separator(sep),
    ensures
        ({
            let g = group_sql(subs_sql(d, table, subs, k), sep);
            let w = if g.0.len() == 0 { Seq::<char>::empty() } else { g.0[0] };
            g.2 >= k && placeholders_are(w, k, (g.2 - k) as nat)
        }),
    decreases subs, 1nat,
{
    lemma_literals();
    lemma_subs_numbered(d, table, subs, k, sep);
    let st = subs_sql(d, table, subs, k);
    if st.0.len() == 0 {
        lemma_plain(Seq::<char>::empty(), k);
    } else {
        lemma_wrap(join(st.0, sep), k, (st.2 - k) as nat, "("@, ")"@);
    }
}

proof fn lemma_subs_numbered(d: Dialect, table: Seq<char>, subs: Seq<FilterSpec>, k: nat, sep: Seq<char>)
    requires
        no_dollar(table),
        subs_names_ok(subs),
        separator(sep),
    ensures
        numbered(subs_sql(d, table, subs, k), k, sep),
    decreases subs, 0nat,
{
    if subs.len() == 0 {
        lemma_empty_join(k, sep);
    } else {
        lemma_subs_numbered(d, table, subs.drop_last(), k, sep);
        let before = subs_sql(d, table, subs.drop_last(), k);
        lemma_filter_numbered(d, table, subs[subs.len() - 1], before.2);
        let r = filter_sql(d, table, subs[subs.len() - 1], before.2);
        if r.0.len() > 0 {
            lemma_push_clause(before.0, k, before.2, r.0, r.2, sep);
        }
    }
}

/// The placeholders of a filter's WHERE clause are bound in order: for a
/// table and field names without `$`, the clause written from parameter `k`
/// holds exactly `$k`, ..., `$(n-1)`, once each and in increasing order,
/// where `n` is the next free parameter, and there is one bound value for
/// each of them, so that the i-th bound value belongs to `$(k+i)`.
pub proof fn lemma_filter_placeholders(d: Dialect, table: Seq<char>, f: FilterSpec, k: nat)
    requires
        no_dollar(table),
        filter_names_ok(f),
    ensures
        ({
            let (w, b, n) = filter_sql(d, table, f, k);
            &&& n == k + b.len()
            &&& placeholders_are(w, k, b.len())
        }),
{
    lemma_filter_numbered(d, table, f, k);
    super::sql::lemma_filter_params_match_bindings(d, table, f, k);
}

} // verus!
