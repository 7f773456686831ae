//! A JSON document model: the values that filters, flow options and
//! configuration carry.

use vstd::prelude::*;
use vstd::string::*;
use crate::text::{decimal, join, push_char, push_decimal, push_signed_decimal, signed_decimal, str_eq};

verus! {

broadcast use vstd::std_specs::vec::group_vec_axioms;

/// A JSON number, as the JSON library keeps it: a non-negative integer, a
/// negative integer, or a floating-point number held as its canonical decimal text.
#[derive(Debug)]
pub enum JsonNumber {
    PosInt(u64),
    NegInt(i64),
    Float(String),
}

/// A JSON value. Object members keep the order in which the JSON library
/// yields them.
#[derive(Debug)]
pub enum JsonValue {
    Null,
    Bool(bool),
    Number(JsonNumber),
    String(String),
    Array(Vec<JsonValue>),
    Object(Vec<(String, JsonValue)>),
}

/// Mathematical JSON number.
pub enum Num {
    PosInt(nat),
    NegInt(int),
    Float(Seq<char>),
}

/// Mathematical JSON value.
pub enum Json {
    Null,
    Bool(bool),
    Number(Num),
    Str(Seq<char>),
    Arr(Seq<Json>),
    Obj(Seq<(Seq<char>, Json)>),
}

impl JsonNumber {
    pub open spec fn view(&self) -> Num {
        match self {
            JsonNumber::PosInt(u) => Num::PosInt(*u as nat),
            JsonNumber::NegInt(i) => Num::NegInt(*i as int),
            JsonNumber::Float(t) => Num::Float(t@),
        }
    }
}

impl JsonValue {
    pub open spec fn view(&self) -> Json
        decreases self,
    {
        match self {
            JsonValue::Null => Json::Null,
            JsonValue::Bool(b) => Json::Bool(*b),
            JsonValue::Number(n) => Json::Number(n.view()),
            JsonValue::String(s) => Json::Str(s@),
            JsonValue::Array(v) => Json::Arr(Seq::new(v.len() as nat, |i: int| if 0 <= i < v.len() { v[i].view() } else { Json::Null })),
            JsonValue::Object(v) => Json::Obj(Seq::new(v.len() as nat, |i: int| if 0 <= i < v.len() { (v[i].0@, v[i].1.view()) } else { (Seq::empty(), Json::Null) })),
        }
    }
}


/// The first member of `entries` named `key`.
pub open spec fn obj_get(entries: Seq<(Seq<char>, Json)>, key: Seq<char>) -> Option<Json>
    decreases entries.len(),
{
    if entries.len() == 0 {
        None
    } else if entries[0].0 == key {
        Some(entries[0].1)
    } else {
        obj_get(entries.skip(1), key)
    }
}

impl Json {
    /// Member `key` of an object (`Value::get` with a string key).
    pub open spec fn get(self, key: Seq<char>) -> Option<Json> {
        match self {
            Json::Obj(m) => obj_get(m, key),
            _ => None,
        }
    }

    /// The text of a string value.
    pub open spec fn as_str(self) -> Option<Seq<char>> {
        match self {
            Json::Str(s) => Some(s),
            _ => None,
        }
    }

    /// The flag of a boolean value.
    pub open spec fn as_bool(self) -> Option<bool> {
        match self {
            Json::Bool(b) => Some(b),
            _ => None,
        }
    }

    /// A number that is a non-negative integer fitting in 64 bits.
    pub open spec fn as_u64(self) -> Option<nat> {
        match self {
            Json::Number(Num::PosInt(u)) => Some(u),
            _ => None,
        }
    }

    /// A number that is an integer fitting in a signed 64-bit integer.
    pub open spec fn as_i64(self) -> Option<int> {
        match self {
            Json::Number(Num::PosInt(u)) => if u <= i64::MAX { Some(u as int) } else { None },
            Json::Number(Num::NegInt(i)) => Some(i),
            _ => None,
        }
    }

    pub open spec fn is_null(self) -> bool {
        self is Null
    }
}

proof fn lemma_obj_get_at(m: Seq<(Seq<char>, Json)>, key: Seq<char>, k: int)
    requires
        0 <= k < m.len(),
        m[k].0 == key,
        forall|j: int| 0 <= j < k ==> m[j].0 != key,
    ensures
        obj_get(m, key) == Some(m[k].1),
    decreases m.len(),
{
    if k > 0 {
        lemma_obj_get_at(m.skip(1), key, k - 1);
    }
}

proof fn lemma_obj_get_none(m: Seq<(Seq<char>, Json)>, key: Seq<char>)
    requires
        forall|j: int| 0 <= j < m.len() ==> m[j].0 != key,
    ensures
        obj_get(m, key) is None,
    decreases m.len(),
{
    if m.len() > 0 {
        lemma_obj_get_none(m.skip(1), key);
    }
}

impl JsonNumber {
    /// A copy of this number.
    pub fn copy(&self) -> (r: JsonNumber)
        ensures
            r.view() == self.view(),
    {
        match self {
            JsonNumber::PosInt(u) => JsonNumber::PosInt(*u),
            JsonNumber::NegInt(i) => JsonNumber::NegInt(*i),
            JsonNumber::Float(t) => JsonNumber::Float(t.clone()),
        }
    }

    /// Equality of numbers (integers by value, floating-point numbers by text).
    pub fn same(&self, other: &JsonNumber) -> (r: bool)
        ensures
            r == (self.view() == other.view()),
    {
        match (self, other) {
            (JsonNumber::PosInt(a), JsonNumber::PosInt(b)) => *a == *b,
            (JsonNumber::NegInt(a), JsonNumber::NegInt(b)) => *a == *b,
            (JsonNumber::Float(a), JsonNumber::Float(b)) => str_eq(a.as_str(), b.as_str()),
            _ => false,
        }
    }
}

impl JsonValue {
    /// A deep copy of this value.
    pub fn copy(&self) -> (r: JsonValue)
        ensures
            r@ == self@,
        decreases self,
    {
        match self {
            JsonValue::Null => JsonValue::Null,
            JsonValue::Bool(b) => JsonValue::Bool(*b),
            JsonValue::Number(n) => JsonValue::Number(n.copy()),
            JsonValue::String(t) => JsonValue::String(t.clone()),
            JsonValue::Array(v) => {
                let mut out: Vec<JsonValue> = Vec::new();
                let mut i: usize = 0;
                while i < v.len()
                    invariant
                        i <= v@.len(),
                        out@.len() == i,
                        forall|k: int| 0 <= k < i ==> #[trigger] out@[k]@ == v@[k]@,
                        forall|k: int| 0 <= k < v@.len() ==> decreases_to!(*self => v@[k]),
                    decreases v@.len() - i,
                {
                    out.push(v[i].copy());
                    i = i + 1;
                }
                let r = JsonValue::Array(out);
                assert(r@ == self@) by {
                    if let (Json::Arr(a), Json::Arr(b)) = (r@, self@) {
                        assert forall|k: int| 0 <= k < a.len() implies a[k] == b[k] by {
                            assert(out@[k]@ == v@[k]@);
                        }
                        assert(a =~= b);
                    }
                }
                r
            },
            JsonValue::Object(v) => {
                let mut out: Vec<(String, JsonValue)> = Vec::new();
                let mut i: usize = 0;
                while i < v.len()
                    invariant
                        i <= v@.len(),
                        out@.len() == i,
                        forall|k: int| #![trigger out@[k]] 0 <= k < i ==> out@[k].0@ == v@[k].0@ && out@[k].1@ == v@[k].1@,
                        forall|k: int| 0 <= k < v@.len() ==> decreases_to!(*self => v@[k].1),
                    decreases v@.len() - i,
                {
                    out.push((v[i].0.clone(), v[i].1.copy()));
                    i = i + 1;
                }
                let r = JsonValue::Object(out);
                assert(r@ == self@) by {
                    if let (Json::Obj(a), Json::Obj(b)) = (r@, self@) {
                        assert forall|k: int| 0 <= k < a.len() implies a[k] == b[k] by {
                            assert(out@[k].0@ == v@[k].0@ && out@[k].1@ == v@[k].1@);
                        }
                        assert(a =~= b);
                    }
                }
                r
            },
        }
    }

    /// Structural equality of JSON values (`==` on JSON values).
    pub fn equals(&self, other: &JsonValue) -> (r: bool)
        ensures
            r == (self@ == other@),
        decreases self,
    {
        match (self, other) {
            (JsonValue::Null, JsonValue::Null) => true,
            (JsonValue::Bool(a), JsonValue::Bool(b)) => *a == *b,
            (JsonValue::Number(a), JsonValue::Number(b)) => a.same(b),
            (JsonValue::String(a), JsonValue::String(b)) => str_eq(a.as_str(), b.as_str()),
            (JsonValue::Array(a), JsonValue::Array(b)) => {
                if a.len() != b.len() {
                    proof {
                        if let (Json::Arr(x), Json::Arr(y)) = (self@, other@) {
                            assert(x.len() != y.len());
                        }
                    }
                    return false;
                }
                let ghost xs = match self@ { Json::Arr(xs) => xs, _ => Seq::empty() };
                let ghost ys = match other@ { Json::Arr(ys) => ys, _ => Seq::empty() };
                let mut i: usize = 0;
                while i < a.len()
                    invariant
                        a@.len() == b@.len(),
                        i <= a@.len(),
                        forall|k: int| 0 <= k < i ==> #[trigger] a@[k]@ == b@[k]@,
                        forall|k: int| 0 <= k < a@.len() ==> decreases_to!(*self => a@[k]),
                        self@ == Json::Arr(xs),
                        other@ == Json::Arr(ys),
                        xs.len() == a@.len(),
                        ys.len() == b@.len(),
                        forall|k: int| 0 <= k < xs.len() ==> #[trigger] xs[k] == a@[k]@,
                        forall|k: int| 0 <= k < ys.len() ==> #[trigger] ys[k] == b@[k]@,
                    decreases a@.len() - i,
                {
                    if !a[i].equals(&b[i]) {
                        proof {
                            if let (Json::Arr(x), Json::Arr(y)) = (self@, other@) {
                                assert(x[i as int] == a@[i as int]@);
                                assert(x[i as int] != y[i as int]);
                            }
                        }
                        return false;
                    }
                    i = i + 1;
                }
                proof {
                    if let (Json::Arr(x), Json::Arr(y)) = (self@, other@) {
                        assert forall|k: int| 0 <= k < x.len() implies x[k] == y[k] by {
                            assert(a@[k]@ == b@[k]@);
                        }
                        assert(x =~= y);
                    }
                }
                true
            },
            (JsonValue::Object(a), JsonValue::Object(b)) => {
                if a.len() != b.len() {
                    proof {
                        if let (Json::Obj(x), Json::Obj(y)) = (self@, other@) {
                            assert(x.len() != y.len());
                        }
                    }
                    return false;
                }
                let ghost xs = match self@ { Json::Obj(xs) => xs, _ => Seq::empty() };
                let ghost ys = match other@ { Json::Obj(ys) => ys, _ => Seq::empty() };
                let mut i: usize = 0;
                while i < a.len()
                    invariant
                        a@.len() == b@.len(),
                        i <= a@.len(),
                        forall|k: int| #![trigger a@[k]] 0 <= k < i ==> a@[k].0@ == b@[k].0@ && a@[k].1@ == b@[k].1@,
                        forall|k: int| 0 <= k < a@.len() ==> decreases_to!(*self => a@[k].1),
                        self@ == Json::Obj(xs),
                        other@ == Json::Obj(ys),
                        xs.len() == a@.len(),
                        ys.len() == b@.len(),
                        forall|k: int| 0 <= k < xs.len() ==> #[trigger] xs[k] == (a@[k].0@, a@[k].1@),
                        forall|k: int| 0 <= k < ys.len() ==> #[trigger] ys[k] == (b@[k].0@, b@[k].1@),
                    decreases a@.len() - i,
                {
                    if !str_eq(a[i].0.as_str(), b[i].0.as_str()) || !a[i].1.equals(&b[i].1) {
                        proof {
                            if let (Json::Obj(x), Json::Obj(y)) = (self@, other@) {
                                assert(x[i as int] != y[i as int]);
                            }
                        }
                        return false;
                    }
                    i = i + 1;
                }
                proof {
                    if let (Json::Obj(x), Json::Obj(y)) = (self@, other@) {
                        assert forall|k: int| 0 <= k < x.len() implies x[k] == y[k] by {
                            assert(a@[k].0@ == b@[k].0@ && a@[k].1@ == b@[k].1@);
                        }
                        assert(x =~= y);
                    }
                }
                true
            },
            _ => false,
        }
    }

    /// Member `key` of an object; `None` for other values or a missing member.
    pub fn get(&self, key: &str) -> (r: Option<&JsonValue>)
        ensures
            match r {
                Some(x) => self@.get(key@) == Some(x@),
                None => self@.get(key@) is None,
            },
    {
        match self {
            JsonValue::Object(m) => {
                let ghost mv = match self@ { Json::Obj(mv) => mv, _ => Seq::empty() };
                assert(mv.len() == m@.len());
                let mut i: usize = 0;
                while i < m.len()
                    invariant
                        i <= m@.len(),
                        self@ == Json::Obj(mv),
                        mv.len() == m@.len(),
                        forall|k: int| 0 <= k < m@.len() ==> #[trigger] mv[k] == (m@[k].0@, m@[k].1@),
                        forall|j: int| 0 <= j < i ==> mv[j].0 != key@,
                    decreases m@.len() - i,
                {
                    if str_eq(m[i].0.as_str(), key) {
                        proof {
                            lemma_obj_get_at(mv, key@, i as int);
                            assert(mv[i as int] == (m@[i as int].0@, m@[i as int].1@));
                        }
                        return Some(&m[i].1);
                    }
                    i = i + 1;
                }
                proof {
                    lemma_obj_get_none(mv, key@);
                }
                None
            },
            _ => None,
        }
    }

    /// The text of a string value.
    pub fn as_str(&self) -> (r: Option<&str>)
        ensures
            match r {
                Some(t) => self@.as_str() == Some(t@),
                None => self@.as_str() is None,
            },
    {
        match self {
            JsonValue::String(t) => Some(t.as_str()),
            _ => None,
        }
    }

    /// The flag of a boolean value.
    pub fn as_bool(&self) -> (r: Option<bool>)
        ensures
            r == self@.as_bool(),
    {
        match self {
            JsonValue::Bool(b) => Some(*b),
            _ => None,
        }
    }

    /// A number that is a non-negative integer fitting in 64 bits.
    pub fn as_u64(&self) -> (r: Option<u64>)
        ensures
            match r {
                Some(u) => self@.as_u64() == Some(u as nat),
                None => self@.as_u64() is None,
            },
    {
        match self {
            JsonValue::Number(JsonNumber::PosInt(u)) => Some(*u),
            _ => None,
        }
    }

    /// A number that is an integer fitting in a signed 64-bit integer.
    pub fn as_i64(&self) -> (r: Option<i64>)
        ensures
            match r {
                Some(i) => self@.as_i64() == Some(i as int),
                None => self@.as_i64() is None,
            },
    {
        match self {
            JsonValue::Number(JsonNumber::PosInt(u)) => if *u <= 9223372036854775807u64 {
                Some(*u as i64)
            } else {
                None
            },
            JsonValue::Number(JsonNumber::NegInt(i)) => Some(*i),
            _ => None,
        }
    }

    pub fn is_null(&self) -> (r: bool)
        ensures
            r == self@.is_null(),
    {
        match self {
            JsonValue::Null => true,
            _ => false,
        }
    }

    /// A string value holding a copy of `t`.
    pub fn string(t: &str) -> (r: JsonValue)
        ensures
            r@ == Json::Str(t@),
    {
        JsonValue::String(String::from_str(t))
    }
}

/// The members of a JSON object, as (name, value) views.
pub open spec fn members_view(v: Seq<(String, JsonValue)>) -> Seq<(Seq<char>, Json)> {
    Seq::new(v.len(), |i: int| (v[i].0@, v[i].1@))
}

/// The view of an object value is its members' views.
pub proof fn lemma_object_view(v: &Vec<(String, JsonValue)>)
    ensures
        JsonValue::Object(*v)@ == Json::Obj(members_view(v@)),
{
    assert(JsonValue::Object(*v)@->Obj_0 =~= members_view(v@));
}

/// The view of an array value is the list of its items' views.
pub proof fn lemma_array_view(v: &Vec<JsonValue>)
    ensures
        JsonValue::Array(*v)@ == Json::Arr(Seq::new(v@.len(), |i: int| v@[i]@)),
{
    assert(JsonValue::Array(*v)@->Arr_0 =~= Seq::new(v@.len(), |i: int| v@[i]@));
}

/// An object value with the given members, in order.
pub fn object_of(members: Vec<(String, JsonValue)>) -> (r: JsonValue)
    ensures
        r@ == Json::Obj(members_view(members@)),
{
    proof {
        lemma_object_view(&members);
    }
    JsonValue::Object(members)
}

/// The text of member `key` of a JSON value, when it is a string.
pub open spec fn get_str(v: Json, key: Seq<char>) -> Option<Seq<char>> {
    match v.get(key) {
        Some(x) => x.as_str(),
        None => None,
    }
}

/// The text of member `key`, when it is a string (`v.get(key).and_then(as_str)`).
pub fn get_str_exec<'a>(v: &'a JsonValue, key: &str) -> (r: Option<&'a str>)
    ensures
        match r {
            Some(s) => get_str(v@, key@) == Some(s@),
            None => get_str(v@, key@) is None,
        },
{
    match v.get(key) {
        Some(x) => x.as_str(),
        None => None,
    }
}

/// Lower-case hexadecimal digit of `d < 16`.
pub open spec fn hex_digit(d: nat) -> char {
    if d < 10 { ((d + 48) as int) as char } else { ((d + 87) as int) as char }
}

/// The JSON escape of one character: quote, backslash and control
/// characters are escaped (`\b`, `\f`, `\n`, `\r`, `\t`, else `\u00XX`).
pub open spec fn escape_char(c: char) -> Seq<char> {
    if c == '"' {
        seq!['\\', '"']
    } else if c == '\\' {
        seq!['\\', '\\']
    } else if c == '\n' {
        seq!['\\', 'n']
    } else if c == '\r' {
        seq!['\\', 'r']
    } else if c == '\t' {
        seq!['\\', 't']
    } else if c == '\u{8}' {
        seq!['\\', 'b']
    } else if c == '\u{c}' {
        seq!['\\', 'f']
    } else if (c as nat) < 32 {
        seq!['\\', 'u', '0', '0', hex_digit((c as nat) / 16), hex_digit((c as nat) % 16)]
    } else {
        seq![c]
    }
}

/// The escaped body of a JSON string.
pub open spec fn escape_str(s: Seq<char>) -> Seq<char>
    decreases s.len(),
{
    if s.len() == 0 { seq![] } else { escape_str(s.drop_last()) + escape_char(s.last()) }
}

/// A JSON string literal.
pub open spec fn quoted(s: Seq<char>) -> Seq<char> {
    seq!['"'] + escape_str(s) + seq!['"']
}

/// Compact JSON text of a value, as the JSON library writes it.
pub open spec fn json_text(v: Json) -> Seq<char>
    decreases v,
{
    match v {
        Json::Null => "null"@,
        Json::Bool(b) => if b { "true"@ } else { "false"@ },
        Json::Number(Num::PosInt(u)) => decimal(u),
        Json::Number(Num::NegInt(i)) => signed_decimal(i),
        Json::Number(Num::Float(t)) => t,
        Json::Str(s) => quoted(s),
        Json::Arr(a) => seq!['['] + join(arr_texts(a), seq![',']) + seq![']'],
        Json::Obj(m) => seq!['{'] + join(member_texts(m), seq![',']) + seq!['}'],
    }
}

/// The texts of array elements.
pub open spec fn arr_texts(a: Seq<Json>) -> Seq<Seq<char>>
    decreases a,
{
    Seq::new(a.len(), |i: int| if 0 <= i < a.len() { json_text(a[i]) } else { Seq::empty() })
}

/// The texts `"key":value` of object members.
pub open spec fn member_texts(m: Seq<(Seq<char>, Json)>) -> Seq<Seq<char>>
    decreases m,
{
    Seq::new(m.len(), |i: int| if 0 <= i < m.len() { quoted(m[i].0) + seq![':'] + json_text(m[i].1) } else { Seq::empty() })
}

fn hex_digit_exec(d: u32) -> (c: char)
    requires
        d < 16,
    ensures
        c == hex_digit(d as nat),
{
    if d == 0 { '0' } else if d == 1 { '1' } else if d == 2 { '2' } else if d == 3 { '3' }
    else if d == 4 { '4' } else if d == 5 { '5' } else if d == 6 { '6' } else if d == 7 { '7' }
    else if d == 8 { '8' } else if d == 9 { '9' } else if d == 10 { 'a' } else if d == 11 { 'b' }
    else if d == 12 { 'c' } else if d == 13 { 'd' } else if d == 14 { 'e' } else { 'f' }
}

/// Appends the JSON escape of `c`.
fn push_escaped_char(out: &mut String, c: char)
    ensures
        final(out)@ == old(out)@ + escape_char(c),
{
    let ghost o = out@;
    if c == '"' {
        push_char(out, '\\');
        push_char(out, '"');
    } else if c == '\\' {
        push_char(out, '\\');
        push_char(out, '\\');
    } else if c == '\n' {
        push_char(out, '\\');
        push_char(out, 'n');
    } else if c == '\r' {
        push_char(out, '\\');
        push_char(out, 'r');
    } else if c == '\t' {
        push_char(out, '\\');
        push_char(out, 't');
    } else if c == '\u{8}' {
        push_char(out, '\\');
        push_char(out, 'b');
    } else if c == '\u{c}' {
        push_char(out, '\\');
        push_char(out, 'f');
    } else if (c as u32) < 32 {
        let n = c as u32;
        push_char(out, '\\');
        push_char(out, 'u');
        push_char(out, '0');
        push_char(out, '0');
        push_char(out, hex_digit_exec(n / 16));
        push_char(out, hex_digit_exec(n % 16));
    } else {
        push_char(out, c);
    }
    assert(out@ =~= o + escape_char(c));
}

/// Appends a JSON string literal for `s`.
pub fn push_quoted(out: &mut String, s: &str)
    ensures
        final(out)@ == old(out)@ + quoted(s@),
{
    let ghost o = out@;
    push_char(out, '"');
    let mut i: usize = 0;
    let cs = crate::text::chars_of(s);
    assert(cs@.take(0) =~= Seq::<char>::empty());
    while i < cs.len()
        invariant
            cs@ == s@,
            i <= cs@.len(),
            out@ == o + seq!['"'] + escape_str(cs@.take(i as int)),
        decreases cs@.len() - i,
    {
        assert(cs@.take(i as int + 1).drop_last() =~= cs@.take(i as int));
        push_escaped_char(out, cs[i]);
        i = i + 1;
        assert(out@ =~= o + seq!['"'] + escape_str(cs@.take(i as int)));
    }
    assert(cs@.take(cs@.len() as int) =~= cs@);
    push_char(out, '"');
    assert(out@ =~= o + quoted(s@));
}

/// Appends the compact JSON text of `v`.
pub fn write_json(v: &JsonValue, out: &mut String)
    ensures
        final(out)@ == old(out)@ + json_text(v@),
    decreases v,
{
    let ghost o = out@;
    match v {
        JsonValue::Null => {
            out.append("null");
        },
        JsonValue::Bool(b) => {
            if *b {
                out.append("true");
            } else {
                out.append("false");
            }
        },
        JsonValue::Number(JsonNumber::PosInt(u)) => {
            push_decimal(out, *u);
        },
        JsonValue::Number(JsonNumber::NegInt(i)) => {
            push_signed_decimal(out, *i);
        },
        JsonValue::Number(JsonNumber::Float(t)) => {
            out.append(t.as_str());
        },
        JsonValue::String(s) => {
            push_quoted(out, s.as_str());
        },
        JsonValue::Array(a) => {
            let ghost texts = Seq::new(a@.len(), |i: int| json_text(a@[i]@));
            assert(v@->Arr_0.len() == a@.len());
            assert(json_text(v@) == seq!['['] + join(texts, seq![',']) + seq![']']) by {
                let av = v@->Arr_0;
                assert(v@ == Json::Arr(av));
                let lam = arr_texts(av);
                assert forall|k: int| 0 <= k < av.len() implies lam[k] == texts[k] by {
                    assert(av[k] == a@[k]@);
                }
                assert(lam =~= texts);
            }
            push_char(out, '[');
            let mut i: usize = 0;
            assert(texts.take(0) =~= Seq::<Seq<char>>::empty());
            while i < a.len()
                invariant
                    texts == Seq::new(a@.len(), |i: int| json_text(a@[i]@)),
                    i <= a@.len(),
                    out@ == o + seq!['['] + join(texts.take(i as int), seq![',']),
                    forall|k: int| 0 <= k < a@.len() ==> decreases_to!(*v => a@[k]),
                decreases a@.len() - i,
            {
                let ghost before = out@;
                if i > 0 {
                    push_char(out, ',');
                }
                write_json(&a[i], out);
                proof {
                    let t = texts.take(i as int + 1);
                    assert(t.drop_last() =~= texts.take(i as int));
                    assert(t.last() == json_text(a@[i as int]@));
                    if i == 0 {
                        assert(out@ =~= o + seq!['['] + join(t, seq![',']));
                    } else {
                        assert(out@ =~= o + seq!['['] + join(t, seq![',']));
                    }
                }
                i = i + 1;
            }
            assert(texts.take(a@.len() as int) =~= texts);
            push_char(out, ']');
        },
        JsonValue::Object(m) => {
            let ghost texts = Seq::new(m@.len(), |i: int| quoted(m@[i].0@) + seq![':'] + json_text(m@[i].1@));
            assert(v@->Obj_0.len() == m@.len());
            assert(json_text(v@) == seq!['{'] + join(texts, seq![',']) + seq!['}']) by {
                let mv = v@->Obj_0;
                assert(v@ == Json::Obj(mv));
                let lam = member_texts(mv);
                assert forall|k: int| 0 <= k < mv.len() implies lam[k] == texts[k] by {
                    assert(mv[k] == (m@[k].0@, m@[k].1@));
                }
                assert(lam =~= texts);
            }
            push_char(out, '{');
            let mut i: usize = 0;
            assert(texts.take(0) =~= Seq::<Seq<char>>::empty());
            while i < m.len()
                invariant
                    texts == Seq::new(m@.len(), |i: int| quoted(m@[i].0@) + seq![':'] + json_text(m@[i].1@)),
                    i <= m@.len(),
                    out@ == o + seq!['{'] + join(texts.take(i as int), seq![',']),
                    forall|k: int| 0 <= k < m@.len() ==> decreases_to!(*v => m@[k].1),
                decreases m@.len() - i,
            {
                if i > 0 {
                    push_char(out, ',');
                }
                push_quoted(out, m[i].0.as_str());
                push_char(out, ':');
                write_json(&m[i].1, out);
                proof {
                    let t = texts.take(i as int + 1);
                    assert(t.drop_last() =~= texts.take(i as int));
                    assert(t.last() == quoted(m@[i as int].0@) + seq![':'] + json_text(m@[i as int].1@));
                    assert(out@ =~= o + seq!['{'] + join(t, seq![',']));
                }
                i = i + 1;
            }
            assert(texts.take(m@.len() as int) =~= texts);
            push_char(out, '}');
        },
    }
    proof {
        assert(out@ =~= o + json_text(v@));
    }
}

/// `entries` with `key` set to `value`: the first entry with that key is
/// replaced, else the entry is appended.
pub open spec fn set_entry(entries: Seq<(Seq<char>, Json)>, key: Seq<char>, value: Json) -> Seq<(Seq<char>, Json)>
    decreases entries.len(),
{
    if entries.len() == 0 {
        seq![(key, value)]
    } else if entries[0].0 == key {
        entries.update(0, (key, value))
    } else {
        seq![entries[0]] + set_entry(entries.skip(1), key, value)
    }
}

/// After setting `key`, reading `key` gives the value set, and reading any
/// other key gives what it gave before.
pub proof fn lemma_set_entry_get(entries: Seq<(Seq<char>, Json)>, key: Seq<char>, value: Json, other: Seq<char>)
    ensures
        obj_get(set_entry(entries, key, value), key) == Some(value),
        other != key ==> obj_get(set_entry(entries, key, value), other) == obj_get(entries, other),
    decreases entries.len(),
{
    if entries.len() > 0 {
        if entries[0].0 == key {
            let u = entries.update(0, (key, value));
            assert(u.skip(1) =~= entries.skip(1));
            assert(u[0] == (key, value));
        } else {
            let r = seq![entries[0]] + set_entry(entries.skip(1), key, value);
            assert(r.skip(1) =~= set_entry(entries.skip(1), key, value));
            assert(r[0] == entries[0]);
            lemma_set_entry_get(entries.skip(1), key, value, other);
        }
    } else {
        let r = seq![(key, value)];
        assert(r.skip(1) =~= Seq::<(Seq<char>, Json)>::empty());
        assert(obj_get(Seq::<(Seq<char>, Json)>::empty(), other) is None);
    }
}

proof fn lemma_set_entry_at(e: Seq<(Seq<char>, Json)>, key: Seq<char>, value: Json, k: int)
    requires
        0 <= k < e.len(),
        e[k].0 == key,
        forall|j: int| 0 <= j < k ==> #[trigger] e[j].0 != key,
    ensures
        set_entry(e, key, value) == e.update(k, (key, value)),
    decreases e.len(),
{
    if k > 0 {
        assert forall|j: int| 0 <= j < k - 1 implies #[trigger] e.skip(1)[j].0 != key by {
            assert(e.skip(1)[j] == e[j + 1]);
        }
        lemma_set_entry_at(e.skip(1), key, value, k - 1);
        assert(seq![e[0]] + e.skip(1).update(k - 1, (key, value)) =~= e.update(k, (key, value)));
    }
}

proof fn lemma_set_entry_absent(e: Seq<(Seq<char>, Json)>, key: Seq<char>, value: Json)
    requires
        forall|j: int| 0 <= j < e.len() ==> #[trigger] e[j].0 != key,
    ensures
        set_entry(e, key, value) == e.push((key, value)),
    decreases e.len(),
{
    if e.len() > 0 {
        assert forall|j: int| 0 <= j < e.len() - 1 implies #[trigger] e.skip(1)[j].0 != key by {
            assert(e.skip(1)[j] == e[j + 1]);
        }
        lemma_set_entry_absent(e.skip(1), key, value);
        assert(seq![e[0]] + e.skip(1).push((key, value)) =~= e.push((key, value)));
    }
}


/// No two members share a name.
pub open spec fn distinct_keys(m: Seq<(Seq<char>, Json)>) -> bool {
    forall|i: int, j: int| 0 <= i < j < m.len() ==> m[i].0 != m[j].0
}

/// In an object whose member names are distinct, reading a member's name
/// gives that member's value.
pub proof fn lemma_obj_get_distinct(m: Seq<(Seq<char>, Json)>, j: int)
    requires
        distinct_keys(m),
        0 <= j < m.len(),
    ensures
        obj_get(m, m[j].0) == Some(m[j].1),
{
    assert forall|i: int| 0 <= i < j implies m[i].0 != m[j].0 by {}
    lemma_obj_get_at(m, m[j].0, j);
}

/// Reading the name of any member finds something.
pub proof fn lemma_obj_get_index(m: Seq<(Seq<char>, Json)>, j: int)
    requires
        0 <= j < m.len(),
    ensures
        obj_get(m, m[j].0) is Some,
    decreases j,
{
    if m[0].0 != m[j].0 {
        assert(m.skip(1)[j - 1] == m[j]);
        lemma_obj_get_index(m.skip(1), j - 1);
    }
}

/// What a read finds is the value of a member with that name.
pub proof fn lemma_obj_get_some(m: Seq<(Seq<char>, Json)>, key: Seq<char>)
    requires
        obj_get(m, key) is Some,
    ensures
        exists|j: int| 0 <= j < m.len() && m[j].0 == key && Some(m[j].1) == obj_get(m, key),
    decreases m.len(),
{
    if m[0].0 == key {
        assert(m[0].0 == key && Some(m[0].1) == obj_get(m, key));
    } else {
        lemma_obj_get_some(m.skip(1), key);
        let j = choose|j: int| 0 <= j < m.skip(1).len() && m.skip(1)[j].0 == key && Some(m.skip(1)[j].1) == obj_get(m.skip(1), key);
        assert(m[j + 1] == m.skip(1)[j]);
    }
}

/// Appending a member changes a read only where nothing was found before.
pub proof fn lemma_obj_get_push(m: Seq<(Seq<char>, Json)>, k: Seq<char>, v: Json, key: Seq<char>)
    ensures
        obj_get(m.push((k, v)), key) == (if obj_get(m, key) is Some { obj_get(m, key) } else if k == key { Some(v) } else { None }),
    decreases m.len(),
{
    let p = m.push((k, v));
    if m.len() == 0 {
        assert(p.skip(1) =~= Seq::<(Seq<char>, Json)>::empty());
        assert(p[0] == (k, v));
        assert(obj_get(p.skip(1), key) is None);
        assert(obj_get(m, key) is None);
    } else {
        assert(p.skip(1) =~= m.skip(1).push((k, v)));
        assert(p[0] == m[0]);
        lemma_obj_get_push(m.skip(1), k, v, key);
    }
}

/// Setting a member keeps the member names distinct.
pub proof fn lemma_set_entry_distinct(e: Seq<(Seq<char>, Json)>, key: Seq<char>, value: Json)
    requires
        distinct_keys(e),
    ensures
        distinct_keys(set_entry(e, key, value)),
{
    if exists|j: int| 0 <= j < e.len() && e[j].0 == key {
        let k = choose|j: int| 0 <= j < e.len() && e[j].0 == key;
        assert forall|j: int| 0 <= j < k implies #[trigger] e[j].0 != key by {}
        lemma_set_entry_at(e, key, value, k);
        let u = e.update(k, (key, value));
        assert forall|i: int, j: int| 0 <= i < j < u.len() implies u[i].0 != u[j].0 by {
            assert(u[i].0 == e[i].0);
            assert(u[j].0 == e[j].0);
        }
    } else {
        assert forall|j: int| 0 <= j < e.len() implies #[trigger] e[j].0 != key by {}
        lemma_set_entry_absent(e, key, value);
    }
}

/// The member `key` of an object's members, if there is one.
pub fn member_get<'a>(m: &'a Vec<(String, JsonValue)>, key: &str) -> (r: Option<&'a JsonValue>)
    ensures
        match r {
            Some(x) => obj_get(members_view(m@), key@) == Some(x@),
            None => obj_get(members_view(m@), key@) is None,
        },
{
    let ghost mv = members_view(m@);
    let mut i: usize = 0;
    while i < m.len()
        invariant
            i <= m@.len(),
            mv == members_view(m@),
            forall|j: int| 0 <= j < i ==> #[trigger] mv[j].0 != key@,
        decreases m@.len() - i,
    {
        if str_eq(m[i].0.as_str(), key) {
            proof {
                lemma_obj_get_at(mv, key@, i as int);
            }
            return Some(&m[i].1);
        }
        i = i + 1;
    }
    proof {
        lemma_obj_get_none(mv, key@);
    }
    None
}

/// Sets member `key` of an object's members to `value`: the first member
/// with that name is replaced, else the member is appended.
pub fn set_member(members: &mut Vec<(String, JsonValue)>, key: String, value: JsonValue)
    ensures
        members_view(final(members)@) == set_entry(members_view(old(members)@), key@, value@),
{
    let ghost m0 = members_view(members@);
    let mut i: usize = 0;
    while i < members.len()
        invariant
            m0 == members_view(members@),
            i <= members@.len(),
            forall|j: int| 0 <= j < i ==> #[trigger] m0[j].0 != key@,
        ensures
            i <= members@.len(),
            forall|j: int| 0 <= j < i ==> #[trigger] m0[j].0 != key@,
            i < members@.len() ==> m0[i as int].0 == key@,
        decreases members@.len() - i,
    {
        if str_eq(members[i].0.as_str(), key.as_str()) {
            break;
        }
        i = i + 1;
    }
    if i < members.len() {
        proof {
            lemma_set_entry_at(m0, key@, value@, i as int);
        }
        members.set(i, (key, value));
        assert(members_view(members@) =~= m0.update(i as int, (key@, value@)));
    } else {
        proof {
            lemma_set_entry_absent(m0, key@, value@);
        }
        members.push((key, value));
        assert(members_view(members@) =~= m0.push((key@, value@)));
    }
}

} // verus!
