//! Fields as the admin client shows them.

use vstd::prelude::*;
use vstd::string::*;
use crate::auth::{split_words, words};
use crate::database::query::{copy_opt_string, opt_view};
use crate::flows::opt_json;
use crate::json::{Json, JsonValue};
use crate::text::{char_to_uppercase, chars_of, join, join_strings, push_char, spec_char_to_uppercase, str_eq, string_of, sub_chars, views};

verus! {

broadcast use vstd::std_specs::vec::group_vec_axioms;

/// A field's settings as the API returns them.
#[derive(Debug)]
pub struct Field {
    pub id: Option<i64>,
    pub collection: String,
    pub field: String,
    pub special: Option<String>,
    pub field_type: Option<String>,
    pub interface: Option<String>,
    pub options: Option<JsonValue>,
    pub display: Option<String>,
    pub display_options: Option<JsonValue>,
    pub readonly: bool,
    pub hidden: bool,
    pub sort: Option<i32>,
    pub width: Option<String>,
    pub translations: Option<JsonValue>,
    pub note: Option<String>,
    pub required: bool,
    pub group: Option<String>,
    pub validation: Option<JsonValue>,
    pub validation_message: Option<String>,
    pub conditions: Option<JsonValue>,
}

/// Mathematical view of a field.
pub struct FieldView {
    pub id: Option<i64>,
    pub collection: Seq<char>,
    pub field: Seq<char>,
    pub special: Option<Seq<char>>,
    pub field_type: Option<Seq<char>>,
    pub interface: Option<Seq<char>>,
    pub options: Option<Json>,
    pub display: Option<Seq<char>>,
    pub display_options: Option<Json>,
    pub readonly: bool,
    pub hidden: bool,
    pub sort: Option<i32>,
    pub width: Option<Seq<char>>,
    pub translations: Option<Json>,
    pub note: Option<Seq<char>>,
    pub required: bool,
    pub group: Option<Seq<char>>,
    pub validation: Option<Json>,
    pub validation_message: Option<Seq<char>>,
    pub conditions: Option<Json>,
}

/// The text with every `_` turned into a space.
pub open spec fn underscores_to_spaces(s: Seq<char>) -> Seq<char> {
    Seq::new(s.len(), |i: int| if s[i] == '_' { ' ' } else { s[i] })
}

/// A word with its first character upper-cased.
pub open spec fn capitalized(w: Seq<char>) -> Seq<char> {
    if w.len() == 0 { seq![] } else { spec_char_to_uppercase(w[0]) + w.skip(1) }
}

/// The label of a field name: its words (split at whitespace and `_`), each
/// capitalized, joined by single spaces.
pub open spec fn field_label(name: Seq<char>) -> Seq<char> {
    let ws = words(underscores_to_spaces(name));
    join(Seq::new(ws.len(), |i: int| capitalized(ws[i])), " "@)
}

/// The layout class of a width setting: `half`, `half-left` or `half-right`
/// as given, else `full`.
pub open spec fn width_class_of(w: Option<Seq<char>>) -> Seq<char> {
    match w {
        Some(x) => if x == "half"@ || x == "half-left"@ || x == "half-right"@ { x } else { "full"@ },
        None => "full"@,
    }
}

impl Field {
    pub open spec fn view(&self) -> FieldView {
        FieldView {
            id: self.id,
            collection: self.collection@,
            field: self.field@,
            special: opt_view(self.special),
            field_type: opt_view(self.field_type),
            interface: opt_view(self.interface),
            options: opt_json(self.options),
            display: opt_view(self.display),
            display_options: opt_json(self.display_options),
            readonly: self.readonly,
            hidden: self.hidden,
            sort: self.sort,
            width: opt_view(self.width),
            translations: opt_json(self.translations),
            note: opt_view(self.note),
            required: self.required,
            group: opt_view(self.group),
            validation: opt_json(self.validation),
            validation_message: opt_view(self.validation_message),
            conditions: opt_json(self.conditions),
        }
    }

    /// A copy of this field.
    pub fn copy(&self) -> (r: Field)
        ensures
            r.view() == self.view(),
    {
        Field {
            id: self.id,
            collection: self.collection.clone(),
            field: self.field.clone(),
            special: copy_opt_string(&self.special),
            field_type: copy_opt_string(&self.field_type),
            interface: copy_opt_string(&self.interface),
            options: copy_opt_json(&self.options),
            display: copy_opt_string(&self.display),
            display_options: copy_opt_json(&self.display_options),
            readonly: self.readonly,
            hidden: self.hidden,
            sort: self.sort,
            width: copy_opt_string(&self.width),
            translations: copy_opt_json(&self.translations),
            note: copy_opt_string(&self.note),
            required: self.required,
            group: copy_opt_string(&self.group),
            validation: copy_opt_json(&self.validation),
            validation_message: copy_opt_string(&self.validation_message),
            conditions: copy_opt_json(&self.conditions),
        }
    }

    /// The field's label: `author_name` reads `Author Name`.
    pub fn display_name(&self) -> (r: String)
        ensures
            r@ == field_label(self.field@),
    {
        let cs = chars_of(self.field.as_str());
        let mut t = String::new();
        let mut i: usize = 0;
        while i < cs.len()
            invariant
                i <= cs@.len(),
                t@ == underscores_to_spaces(cs@.take(i as int)),
            decreases cs@.len() - i,
        {
            let c = if cs[i] == '_' { ' ' } else { cs[i] };
            push_char(&mut t, c);
            assert(t@ =~= underscores_to_spaces(cs@.take(i as int + 1)));
            i = i + 1;
        }
        assert(cs@.take(cs@.len() as int) =~= cs@);
        let ws = split_words(t.as_str());
        let ghost wv = views(ws@);
        let mut parts: Vec<String> = Vec::new();
        let mut k: usize = 0;
        while k < ws.len()
            invariant
                wv == views(ws@),
                k <= ws@.len(),
                views(parts@) =~= Seq::new(k as nat, |j: int| capitalized(wv[j])),
            decreases ws@.len() - k,
        {
            let w = chars_of(ws[k].as_str());
            let p = if w.len() == 0 {
                String::new()
            } else {
                let mut p = char_to_uppercase(w[0]);
                let rest = string_of(sub_chars(&w, 1, w.len()).as_slice());
                p.append(rest.as_str());
                assert(rest@ =~= w@.skip(1));
                p
            };
            assert(p@ =~= capitalized(wv[k as int]));
            let ghost before = parts@;
            parts.push(p);
            assert(views(parts@) =~= views(before).push(p@));
            k = k + 1;
        }
        join_strings(&parts, " ")
    }

    /// The layout class of the field's width.
    pub fn width_class(&self) -> (r: &str)
        ensures
            r@ == width_class_of(opt_view(self.width)),
    {
        match &self.width {
            Some(w) => {
                if str_eq(w.as_str(), "half") {
                    "half"
                } else if str_eq(w.as_str(), "half-left") {
                    "half-left"
                } else if str_eq(w.as_str(), "half-right") {
                    "half-right"
                } else {
                    "full"
                }
            },
            None => "full",
        }
    }
}

/// A copy of an optional JSON value.
pub fn copy_opt_json(o: &Option<JsonValue>) -> (r: Option<JsonValue>)
    ensures
        opt_json(r) == opt_json(*o),
{
    match o {
        Some(v) => Some(v.copy()),
        None => None,
    }
}

/// Views of a list of fields.
pub open spec fn field_views(v: Seq<Field>) -> Seq<FieldView> {
    Seq::new(v.len(), |i: int| v[i].view())
}

/// The fields of collection `c` that are not hidden, in order.
pub open spec fn shown_fields(fs: Seq<FieldView>, c: Seq<char>) -> Seq<FieldView>
    decreases fs.len(),
{
    if fs.len() == 0 {
        seq![]
    } else {
        let r = shown_fields(fs.drop_last(), c);
        if fs.last().collection == c && !fs.last().hidden { r.push(fs.last()) } else { r }
    }
}

/// The position a field sorts by: its `sort`, or 999 when it has none.
pub open spec fn sort_key(f: FieldView) -> int {
    match f.sort {
        Some(s) => s as int,
        None => 999,
    }
}

/// `x` inserted into `s` before the first field that sorts after it.
pub open spec fn insert_by_sort(s: Seq<FieldView>, x: FieldView) -> Seq<FieldView>
    decreases s.len(),
{
    if s.len() == 0 {
        seq![x]
    } else if sort_key(s[0]) > sort_key(x) {
        seq![x] + s
    } else {
        seq![s[0]] + insert_by_sort(s.skip(1), x)
    }
}

/// The fields ordered by their sort position; fields with equal positions
/// keep their order (a stable sort).
pub open spec fn sorted_by_position(s: Seq<FieldView>) -> Seq<FieldView>
    decreases s.len(),
{
    if s.len() == 0 {
        seq![]
    } else {
        insert_by_sort(sorted_by_position(s.drop_last()), s.last())
    }
}

/// Whether the sort positions never decrease along the list.
pub open spec fn in_position_order(s: Seq<FieldView>) -> bool {
    forall|i: int, j: int| 0 <= i <= j < s.len() ==> sort_key(s[i]) <= sort_key(s[j])
}

/// Inserting at the first later-sorting field is inserting at that index.
proof fn lemma_insert_by_sort_at(s: Seq<FieldView>, x: FieldView, p: int)
    requires
        0 <= p <= s.len(),
        forall|j: int| 0 <= j < p ==> sort_key(#[trigger] s[j]) <= sort_key(x),
        p < s.len() ==> sort_key(s[p]) > sort_key(x),
    ensures
        insert_by_sort(s, x) == s.insert(p, x),
    decreases s.len(),
{
    if s.len() == 0 {
        assert(s.insert(p, x) =~= seq![x]);
    } else if p == 0 {
        assert(s.insert(0, x) =~= seq![x] + s);
    } else {
        assert forall|j: int| 0 <= j < p - 1 implies sort_key(#[trigger] s.skip(1)[j]) <= sort_key(x) by {
            assert(s.skip(1)[j] == s[j + 1]);
        }
        lemma_insert_by_sort_at(s.skip(1), x, p - 1);
        assert(seq![s[0]] + s.skip(1).insert(p - 1, x) =~= s.insert(p, x));
    }
}

/// A stable sort by position leaves the positions in order.
pub proof fn lemma_sorted_by_position_in_order(s: Seq<FieldView>)
    ensures
        in_position_order(sorted_by_position(s)),
        sorted_by_position(s).len() == s.len(),
    decreases s.len(),
{
    if s.len() > 0 {
        lemma_sorted_by_position_in_order(s.drop_last());
        lemma_insert_keeps_order(sorted_by_position(s.drop_last()), s.last());
    }
}

proof fn lemma_insert_keeps_order(s: Seq<FieldView>, x: FieldView)
    requires
        in_position_order(s),
    ensures
        in_position_order(insert_by_sort(s, x)),
        insert_by_sort(s, x).len() == s.len() + 1,
        forall|i: int| 0 <= i < insert_by_sort(s, x).len() ==> (#[trigger] insert_by_sort(s, x)[i] == x || s.contains(insert_by_sort(s, x)[i])),
    decreases s.len(),
{
    if s.len() == 0 {
    } else if sort_key(s[0]) > sort_key(x) {
        let r = seq![x] + s;
        assert forall|i: int| 0 <= i < r.len() implies (#[trigger] r[i] == x || s.contains(r[i])) by {
            if i > 0 {
                assert(r[i] == s[i - 1]);
            }
        }
    } else {
        let t = s.skip(1);
        assert forall|i: int, j: int| 0 <= i <= j < t.len() implies sort_key(t[i]) <= sort_key(t[j]) by {
            assert(t[i] == s[i + 1]);
            assert(t[j] == s[j + 1]);
        }
        lemma_insert_keeps_order(t, x);
        let it = insert_by_sort(t, x);
        let r = seq![s[0]] + it;
        assert forall|i: int| 0 <= i < r.len() implies (#[trigger] r[i] == x || s.contains(r[i])) by {
            if i > 0 {
                assert(r[i] == it[i - 1]);
                if it[i - 1] != x {
                    assert(t.contains(it[i - 1]));
                    let k = choose|k: int| 0 <= k < t.len() && t[k] == it[i - 1];
                    assert(s[k + 1] == t[k]);
                }
            } else {
                assert(s[0] == r[0]);
            }
        }
        assert forall|i: int, j: int| 0 <= i <= j < r.len() implies sort_key(r[i]) <= sort_key(r[j]) by {
            if i == 0 && j > 0 {
                assert(r[j] == it[j - 1]);
                if it[j - 1] != x {
                    let k = choose|k: int| 0 <= k < t.len() && t[k] == it[j - 1];
                    assert(t[k] == s[k + 1]);
                }
            } else if i > 0 {
                assert(r[i] == it[i - 1]);
                assert(r[j] == it[j - 1]);
            }
        }
    }
}

/// The fields the client has loaded.
pub struct FieldsStore {
    pub fields: Vec<Field>,
    pub loading: bool,
}

impl FieldsStore {
    /// An empty store, not loading.
    pub fn new() -> (r: FieldsStore)
        ensures
            r.fields@.len() == 0,
            !r.loading,
    {
        FieldsStore { fields: Vec::new(), loading: false }
    }

    /// The fields of `collection` that are not hidden, in order.
    pub fn for_collection(&self, collection: &str) -> (r: Vec<Field>)
        ensures
            field_views(r@) == shown_fields(field_views(self.fields@), collection@),
    {
        let ghost fv = field_views(self.fields@);
        let mut r: Vec<Field> = Vec::new();
        let mut i: usize = 0;
        assert(fv.take(0) =~= Seq::<FieldView>::empty());
        assert(field_views(r@) =~= Seq::<FieldView>::empty());
        while i < self.fields.len()
            invariant
                fv == field_views(self.fields@),
                i <= self.fields@.len(),
                field_views(r@) == shown_fields(fv.take(i as int), collection@),
            decreases self.fields@.len() - i,
        {
            proof {
                assert(fv.take(i as int + 1).drop_last() =~= fv.take(i as int));
                assert(fv.take(i as int + 1).last() == self.fields@[i as int].view());
            }
            let f = &self.fields[i];
            if str_eq(f.collection.as_str(), collection) && !f.hidden {
                let k = f.copy();
                let ghost before = r@;
                r.push(k);
                assert(field_views(r@) =~= field_views(before).push(k.view()));
            }
            i = i + 1;
        }
        assert(fv.take(self.fields@.len() as int) =~= fv);
        r
    }

    /// The shown fields of `collection`, ordered by their sort position
    /// (999 when unset), equal positions keeping their order.
    pub fn visible_for_collection(&self, collection: &str) -> (r: Vec<Field>)
        ensures
            field_views(r@) == sorted_by_position(shown_fields(field_views(self.fields@), collection@)),
    {
        let fields = self.for_collection(collection);
        let ghost sv = field_views(fields@);
        let mut out: Vec<Field> = Vec::new();
        let mut i: usize = 0;
        assert(sv.take(0) =~= Seq::<FieldView>::empty());
        assert(field_views(out@) =~= Seq::<FieldView>::empty());
        while i < fields.len()
            invariant
                sv == field_views(fields@),
                i <= fields@.len(),
                field_views(out@) == sorted_by_position(sv.take(i as int)),
            decreases fields@.len() - i,
        {
            proof {
                assert(sv.take(i as int + 1).drop_last() =~= sv.take(i as int));
                assert(sv.take(i as int + 1).last() == fields@[i as int].view());
            }
            let key: i64 = match fields[i].sort {
                Some(s) => s as i64,
                None => 999,
            };
            let mut p: usize = 0;
            while p < out.len()
                invariant
                    p <= out@.len(),
                    key == sort_key(fields@[i as int].view()),
                    forall|j: int| 0 <= j < p ==> sort_key(#[trigger] field_views(out@)[j]) <= key,
                ensures
                    p <= out@.len(),
                    forall|j: int| 0 <= j < p ==> sort_key(#[trigger] field_views(out@)[j]) <= key,
                    p < out@.len() ==> sort_key(field_views(out@)[p as int]) > key,
                decreases out@.len() - p,
            {
                let k: i64 = match out[p].sort {
                    Some(s) => s as i64,
                    None => 999,
                };
                assert(k == sort_key(field_views(out@)[p as int]));
                if k > key {
                    break;
                }
                p = p + 1;
            }
            let f = fields[i].copy();
            proof {
                lemma_insert_by_sort_at(field_views(out@), f.view(), p as int);
            }
            let ghost before = out@;
            out.insert(p, f);
            assert(field_views(out@) =~= field_views(before).insert(p as int, f.view()));
            i = i + 1;
        }
        assert(sv.take(fields@.len() as int) =~= sv);
        out
    }
}

} // verus!
