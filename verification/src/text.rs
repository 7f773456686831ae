//! Character-sequence helpers shared by the rest of the library.
//!
//! Strings are modelled by their `Seq<char>` view; most algorithms work on
//! `Vec<char>` and convert at the public boundary.

use vstd::prelude::*;
use vstd::string::*;

verus! {

/// Appends one character to a `String` (std `String::push`).
#[verifier::external_body]
pub(crate) fn push_char(s: &mut String, c: char)
    ensures
        final(s)@ == old(s)@.push(c),
{
    s.push(c);
}

/// The characters of a string slice, in order.
pub fn chars_of(s: &str) -> (r: Vec<char>)
    ensures
        r@ == s@,
{
    let mut r: Vec<char> = Vec::new();
    for c in it: s.chars()
        invariant
            r@ == it.seq().take(it.index() as int),
            it.seq() == s@,
    {
        r.push(c);
    }
    r
}

/// Builds a `String` from a sequence of characters.
pub fn string_of(cs: &[char]) -> (r: String)
    ensures
        r@ == cs@,
{
    let mut r = String::new();
    let mut i: usize = 0;
    while i < cs.len()
        invariant
            i <= cs@.len(),
            r@ == cs@.take(i as int),
        decreases cs@.len() - i,
    {
        push_char(&mut r, cs[i]);
        proof {
            assert(cs@.take(i as int + 1) =~= cs@.take(i as int).push(cs@[i as int]));
        }
        i = i + 1;
    }
    proof {
        assert(cs@.take(cs@.len() as int) =~= cs@);
    }
    r
}


/// String equality: true exactly when the two slices hold the same
/// characters, compared one by one.
pub(crate) fn str_eq(a: &str, b: &str) -> (r: bool)
    ensures
        r == (a@ == b@),
{
    let x = chars_of(a);
    let y = chars_of(b);
    chars_eq(x.as_slice(), y.as_slice())
}

/// Whether `c` has the Unicode `White_Space` property (what std
/// `char::is_whitespace` decides).
pub uninterp spec fn spec_is_whitespace(c: char) -> bool;

/// std `char::is_whitespace`; its result is named by `spec_is_whitespace`.
#[verifier::external_body]
pub(crate) fn is_whitespace(c: char) -> (r: bool)
    ensures
        r == spec_is_whitespace(c),
{
    c.is_whitespace()
}

/// `p` is a prefix of `s`.
pub open spec fn is_prefix(p: Seq<char>, s: Seq<char>) -> bool {
    p.len() <= s.len() && s.take(p.len() as int) == p
}

/// `p` is a suffix of `s`.
pub open spec fn is_suffix(p: Seq<char>, s: Seq<char>) -> bool {
    p.len() <= s.len() && s.skip(s.len() - p.len()) == p
}

/// Whether `c` occurs in `s`.
pub open spec fn has_char(s: Seq<char>, c: char) -> bool {
    exists|i: int| 0 <= i < s.len() && s[i] == c
}

/// Index of the first occurrence of `c` in `s`, if any.
pub open spec fn first_index(s: Seq<char>, c: char) -> Option<int>
    decreases s.len(),
{
    if s.len() == 0 {
        None
    } else if s[0] == c {
        Some(0)
    } else {
        match first_index(s.skip(1), c) {
            Some(i) => Some(i + 1),
            None => None,
        }
    }
}

/// The pieces of `s` between occurrences of `sep` (what `str::split` with a
/// `char` pattern yields): always at least one piece.
pub open spec fn split_on(s: Seq<char>, sep: char) -> Seq<Seq<char>>
    decreases s.len(),
{
    match first_index(s, sep) {
        None => seq![s],
        Some(i) => {
            if 0 <= i < s.len() {
                seq![s.take(i)] + split_on(s.skip(i + 1), sep)
            } else {
                seq![s]
            }
        },
    }
}

/// `s` with leading whitespace removed.
pub open spec fn trim_start(s: Seq<char>) -> Seq<char>
    decreases s.len(),
{
    if s.len() > 0 && spec_is_whitespace(s[0]) {
        trim_start(s.skip(1))
    } else {
        s
    }
}

/// `s` with trailing whitespace removed.
pub open spec fn trim_end(s: Seq<char>) -> Seq<char>
    decreases s.len(),
{
    if s.len() > 0 && spec_is_whitespace(s.last()) {
        trim_end(s.drop_last())
    } else {
        s
    }
}

/// `s` with whitespace removed at both ends (`str::trim`).
pub open spec fn trim(s: Seq<char>) -> Seq<char> {
    trim_end(trim_start(s))
}

/// std `str::trim`: the slice without leading and trailing characters that
/// have the `White_Space` property.
#[verifier::external_body]
pub(crate) fn trim_str(s: &str) -> (r: &str)
    ensures
        r@ == trim(s@),
{
    s.trim()
}

proof fn lemma_trim_start_len(s: Seq<char>)
    ensures
        trim_start(s).len() <= s.len(),
    decreases s.len(),
{
    if s.len() > 0 && spec_is_whitespace(s[0]) {
        lemma_trim_start_len(s.skip(1));
    }
}

proof fn lemma_trim_end_len(s: Seq<char>)
    ensures
        trim_end(s).len() <= s.len(),
    decreases s.len(),
{
    if s.len() > 0 && spec_is_whitespace(s.last()) {
        lemma_trim_end_len(s.drop_last());
    }
}

/// Trimming never lengthens a string.
pub proof fn lemma_trim_len(s: Seq<char>)
    ensures
        trim(s).len() <= s.len(),
{
    lemma_trim_start_len(s);
    lemma_trim_end_len(trim_start(s));
}

/// Concatenation of `parts` with `sep` between neighbours (`join`).
pub open spec fn join(parts: Seq<Seq<char>>, sep: Seq<char>) -> Seq<char>
    decreases parts.len(),
{
    if parts.len() == 0 {
        seq![]
    } else if parts.len() == 1 {
        parts[0]
    } else {
        join(parts.drop_last(), sep) + sep + parts.last()
    }
}

/// The decimal digit character for `d < 10`.
pub open spec fn digit_char(d: nat) -> char {
    if d == 0 { '0' } else if d == 1 { '1' } else if d == 2 { '2' } else if d == 3 { '3' }
    else if d == 4 { '4' } else if d == 5 { '5' } else if d == 6 { '6' } else if d == 7 { '7' }
    else if d == 8 { '8' } else { '9' }
}

/// Decimal text of a natural number, without leading zeros.
pub open spec fn decimal(n: nat) -> Seq<char>
    decreases n,
{
    if n < 10 {
        seq![digit_char(n)]
    } else {
        decimal(n / 10).push(digit_char(n % 10))
    }
}

/// Decimal text of an integer, with a leading `-` when negative.
pub open spec fn signed_decimal(n: int) -> Seq<char> {
    if n < 0 {
        seq!['-'] + decimal((-n) as nat)
    } else {
        decimal(n as nat)
    }
}

fn digit_of(d: u64) -> (c: char)
    requires
        d < 10,
    ensures
        c == digit_char(d as nat),
{
    if d == 0 { '0' } else if d == 1 { '1' } else if d == 2 { '2' } else if d == 3 { '3' }
    else if d == 4 { '4' } else if d == 5 { '5' } else if d == 6 { '6' } else if d == 7 { '7' }
    else if d == 8 { '8' } else { '9' }
}

/// Appends the decimal text of `n` to `s`.
pub fn push_decimal(s: &mut String, n: u64)
    ensures
        final(s)@ == old(s)@ + decimal(n as nat),
    decreases n,
{
    if n < 10 {
        push_char(s, digit_of(n));
        proof {
            assert(decimal(n as nat) =~= seq![digit_char(n as nat)]);
        }
    } else {
        push_decimal(s, n / 10);
        push_char(s, digit_of(n % 10));
        proof {
            assert(old(s)@ + decimal(n as nat) =~= (old(s)@ + decimal((n / 10) as nat)).push(
                digit_char((n % 10) as nat),
            ));
        }
    }
}

/// Appends the signed decimal text of `n` to `s`.
pub fn push_signed_decimal(s: &mut String, n: i64)
    ensures
        final(s)@ == old(s)@ + signed_decimal(n as int),
{
    if n < 0 {
        push_char(s, '-');
        let m: u64 = if n == i64::MIN {
            9223372036854775808u64
        } else {
            (-n) as u64
        };
        push_decimal(s, m);
        proof {
            assert(old(s)@ + signed_decimal(n as int) =~= old(s)@.push('-') + decimal(m as nat));
        }
    } else {
        push_decimal(s, n as u64);
    }
}

/// Whether `p` is a prefix of `s`.
pub fn starts_with(s: &[char], p: &[char]) -> (r: bool)
    ensures
        r == is_prefix(p@, s@),
{
    if p.len() > s.len() {
        return false;
    }
    let mut i: usize = 0;
    while i < p.len()
        invariant
            p@.len() <= s@.len(),
            i <= p@.len(),
            forall|j: int| 0 <= j < i ==> s@[j] == p@[j],
        decreases p@.len() - i,
    {
        if s[i] != p[i] {
            assert(s@.take(p@.len() as int)[i as int] != p@[i as int]);
            return false;
        }
        i = i + 1;
    }
    assert(s@.take(p@.len() as int) =~= p@);
    true
}

/// Whether `p` is a suffix of `s`.
pub fn ends_with(s: &[char], p: &[char]) -> (r: bool)
    ensures
        r == is_suffix(p@, s@),
{
    if p.len() > s.len() {
        return false;
    }
    let n = s.len();
    let off = n - p.len();
    let mut i: usize = 0;
    while i < p.len()
        invariant
            n == s@.len(),
            p@.len() <= s@.len(),
            off + p@.len() == s@.len(),
            i <= p@.len(),
            forall|j: int| 0 <= j < i ==> s@[off + j] == p@[j],
        decreases p@.len() - i,
    {
        if s[off + i] != p[i] {
            assert(s@.skip(off as int)[i as int] != p@[i as int]);
            return false;
        }
        i = i + 1;
    }
    assert(s@.skip(off as int) =~= p@);
    true
}

/// Character-wise equality of two sequences.
pub fn chars_eq(a: &[char], b: &[char]) -> (r: bool)
    ensures
        r == (a@ == b@),
{
    if a.len() != b.len() {
        return false;
    }
    let mut i: usize = 0;
    while i < a.len()
        invariant
            a@.len() == b@.len(),
            i <= a@.len(),
            forall|j: int| 0 <= j < i ==> a@[j] == b@[j],
        decreases a@.len() - i,
    {
        if a[i] != b[i] {
            return false;
        }
        i = i + 1;
    }
    assert(a@ =~= b@);
    true
}

proof fn lemma_first_index_found(s: Seq<char>, c: char, k: int)
    requires
        0 <= k < s.len(),
        s[k] == c,
        forall|j: int| 0 <= j < k ==> s[j] != c,
    ensures
        first_index(s, c) == Some(k),
    decreases s.len(),
{
    if k > 0 {
        lemma_first_index_found(s.skip(1), c, k - 1);
    }
}

proof fn lemma_first_index_none(s: Seq<char>, c: char)
    requires
        forall|j: int| 0 <= j < s.len() ==> s[j] != c,
    ensures
        first_index(s, c) is None,
    decreases s.len(),
{
    if s.len() > 0 {
        lemma_first_index_none(s.skip(1), c);
    }
}

/// Properties of the first occurrence.
pub proof fn lemma_first_index(s: Seq<char>, c: char)
    ensures
        first_index(s, c) matches Some(i) ==> 0 <= i < s.len() && s[i] == c && forall|j: int|
            0 <= j < i ==> s[j] != c,
        first_index(s, c) is None ==> forall|j: int| 0 <= j < s.len() ==> s[j] != c,
    decreases s.len(),
{
    if s.len() > 0 {
        lemma_first_index(s.skip(1), c);
        if s[0] != c {
            if let Some(i) = first_index(s.skip(1), c) {
                assert forall|j: int| 0 <= j < i + 1 implies s[j] != c by {
                    if j > 0 {
                        assert(s[j] == s.skip(1)[j - 1]);
                    }
                }
            } else {
                assert forall|j: int| 0 <= j < s.len() implies s[j] != c by {
                    if j > 0 {
                        assert(s[j] == s.skip(1)[j - 1]);
                    }
                }
            }
        }
    }
}

/// Index of the first occurrence of `c` in `s[from..]`, counted from 0.
pub fn find_char(s: &[char], c: char) -> (r: Option<usize>)
    ensures
        match r {
            Some(i) => first_index(s@, c) == Some(i as int),
            None => first_index(s@, c) is None,
        },
{
    let mut i: usize = 0;
    while i < s.len()
        invariant
            i <= s@.len(),
            forall|j: int| 0 <= j < i ==> s@[j] != c,
        decreases s@.len() - i,
    {
        if s[i] == c {
            proof {
                lemma_first_index_found(s@, c, i as int);
            }
            return Some(i);
        }
        i = i + 1;
    }
    proof {
        lemma_first_index_none(s@, c);
    }
    None
}

/// A copy of `s[from..to]`.
pub fn sub_chars(s: &[char], from: usize, to: usize) -> (r: Vec<char>)
    requires
        from <= to <= s@.len(),
    ensures
        r@ == s@.subrange(from as int, to as int),
{
    let mut r: Vec<char> = Vec::new();
    let mut i: usize = from;
    while i < to
        invariant
            from <= i <= to <= s@.len(),
            r@ == s@.subrange(from as int, i as int),
        decreases to - i,
    {
        r.push(s[i]);
        proof {
            assert(s@.subrange(from as int, i as int + 1) =~= s@.subrange(from as int, i as int).push(
                s@[i as int],
            ));
        }
        i = i + 1;
    }
    r
}

/// Splits `s` at every occurrence of `sep` (`str::split` with a `char`).
pub fn split_chars(s: &[char], sep: char) -> (r: Vec<Vec<char>>)
    ensures
        r@.len() == split_on(s@, sep).len(),
        forall|k: int| 0 <= k < r@.len() ==> #[trigger] r@[k]@ == split_on(s@, sep)[k],
{
    let mut r: Vec<Vec<char>> = Vec::new();
    let mut start: usize = 0;
    let mut i: usize = 0;
    let ghost done: Seq<Seq<char>> = seq![];
    assert(s@.skip(0) =~= s@);
    assert(done + split_on(s@.skip(0), sep) =~= split_on(s@, sep));
    while i < s.len()
        invariant
            start <= i <= s@.len(),
            forall|j: int| start <= j < i ==> s@[j] != sep,
            r@.len() == done.len(),
            forall|k: int| 0 <= k < r@.len() ==> #[trigger] r@[k]@ == done[k],
            done + split_on(s@.skip(start as int), sep) == split_on(s@, sep),
        decreases s@.len() - i,
    {
        if s[i] == sep {
            let piece = sub_chars(s, start, i);
            proof {
                let rest = s@.skip(start as int);
                lemma_first_index_found(rest, sep, (i - start) as int);
                assert(rest.take((i - start) as int) =~= s@.subrange(start as int, i as int));
                assert(rest.skip((i - start) as int + 1) =~= s@.skip(i as int + 1));
                done = done.push(piece@);
                assert(done + split_on(s@.skip(i as int + 1), sep) =~= split_on(s@, sep));
            }
            r.push(piece);
            start = i + 1;
        }
        i = i + 1;
    }
    let piece = sub_chars(s, start, s.len());
    proof {
        let rest = s@.skip(start as int);
        lemma_first_index_none(rest, sep);
        assert(rest =~= s@.subrange(start as int, s@.len() as int));
        done = done.push(piece@);
        assert(done =~= split_on(s@, sep));
    }
    r.push(piece);
    r
}

/// The texts of a list of strings.
pub open spec fn views(v: Seq<String>) -> Seq<Seq<char>> {
    Seq::new(v.len(), |i: int| v[i]@)
}

/// Whether one of the strings equals `s`.
pub fn contains_string(v: &Vec<String>, s: &str) -> (r: bool)
    ensures
        r == views(v@).contains(s@),
{
    let mut j: usize = 0;
    while j < v.len()
        invariant
            j <= v@.len(),
            forall|t: int| 0 <= t < j ==> views(v@)[t] != s@,
        decreases v@.len() - j,
    {
        if str_eq(v[j].as_str(), s) {
            assert(views(v@)[j as int] == s@);
            return true;
        }
        j = j + 1;
    }
    proof {
        if views(v@).contains(s@) {
            let t = choose|t: int| 0 <= t < views(v@).len() && views(v@)[t] == s@;
            assert(views(v@)[t] != s@);
        }
    }
    false
}

/// Concatenates `parts` with `sep` between neighbours.
pub fn join_strings(parts: &Vec<String>, sep: &str) -> (r: String)
    ensures
        r@ == join(views(parts@), sep@),
{
    let mut r = String::new();
    let mut k: usize = 0;
    while k < parts.len()
        invariant
            k <= parts@.len(),
            r@ == join(views(parts@).take(k as int), sep@),
        decreases parts@.len() - k,
    {
        let ghost before = r@;
        if k > 0 {
            r.append(sep);
        }
        r.append(parts[k].as_str());
        proof {
            let t = views(parts@).take(k as int + 1);
            assert(t.drop_last() =~= views(parts@).take(k as int));
            if k == 0 {
                assert(before =~= Seq::<char>::empty());
                assert(r@ =~= t[0]);
            } else {
                assert(r@ =~= join(t.drop_last(), sep@) + sep@ + t.last());
            }
        }
        k = k + 1;
    }
    assert(views(parts@).take(parts@.len() as int) =~= views(parts@));
    r
}

/// Upper-case form of a character, as std `char::to_uppercase` yields it.
pub uninterp spec fn spec_char_to_uppercase(c: char) -> Seq<char>;

/// std `char::to_uppercase`, collected into a string; its result is named by
/// `spec_char_to_uppercase`.
#[verifier::external_body]
pub(crate) fn char_to_uppercase(c: char) -> (r: String)
    ensures
        r@ == spec_char_to_uppercase(c),
{
    c.to_uppercase().collect::<String>()
}

/// Upper-case form of a string, as std `str::to_uppercase` computes it.
pub uninterp spec fn spec_to_uppercase(s: Seq<char>) -> Seq<char>;

/// std `str::to_uppercase`; its result is named by `spec_to_uppercase`.
#[verifier::external_body]
pub(crate) fn to_uppercase(s: &str) -> (r: String)
    ensures
        r@ == spec_to_uppercase(s@),
{
    s.to_uppercase()
}

/// Lower-case form of a string, as std `str::to_lowercase` computes it.
pub uninterp spec fn spec_to_lowercase(s: Seq<char>) -> Seq<char>;

/// std `str::to_lowercase`; its result is named by `spec_to_lowercase`.
#[verifier::external_body]
pub(crate) fn to_lowercase(s: &str) -> (r: String)
    ensures
        r@ == spec_to_lowercase(s@),
{
    s.to_lowercase()
}

/// `p` occurs in `s` at some position.
pub open spec fn has_sub(s: Seq<char>, p: Seq<char>) -> bool {
    exists|i: int| 0 <= i && i + p.len() <= s.len() && #[trigger] s.subrange(i, i + p.len()) == p
}

/// Whether `p` occurs in `s` (`str::contains` with a string pattern).
pub fn contains_chars(s: &[char], p: &[char]) -> (r: bool)
    ensures
        r == has_sub(s@, p@),
{
    let n = s.len();
    let m = p.len();
    if m > n {
        return false;
    }
    let mut i: usize = 0;
    while i <= n - m
        invariant
            m <= n,
            n == s@.len(),
            m == p@.len(),
            forall|k: int| 0 <= k < i ==> #[trigger] s@.subrange(k, k + m) != p@,
        decreases n - m + 1 - i,
    {
        let mut j: usize = 0;
        let mut ok = true;
        while j < m
            invariant
                i + m <= n,
                n == s@.len(),
                m == p@.len(),
                j <= m,
                ok == (forall|t: int| 0 <= t < j ==> s@[i + t] == p@[t]),
            decreases m - j,
        {
            if s[i + j] != p[j] {
                ok = false;
            }
            j = j + 1;
        }
        if ok {
            assert(s@.subrange(i as int, i + m) =~= p@);
            return true;
        } else {
            let ghost t = choose|t: int| 0 <= t < m && s@[i + t] != p@[t];
            assert(s@.subrange(i as int, i + m)[t] != p@[t]);
        }
        i = i + 1;
    }
    assert forall|k: int| 0 <= k && k + p@.len() <= s@.len() implies #[trigger] s@.subrange(k, k + p@.len()) != p@ by {
        assert(k < i);
    }
    false
}

/// Value of a string of decimal digits.
pub open spec fn digits_value(d: Seq<char>) -> nat
    decreases d.len(),
{
    if d.len() == 0 {
        0
    } else {
        digits_value(d.drop_last()) * 10 + (d.last() as nat - '0' as nat) as nat
    }
}

/// Every character is a decimal digit.
pub open spec fn all_digits(d: Seq<char>) -> bool {
    forall|i: int| 0 <= i < d.len() ==> '0' <= #[trigger] d[i] <= '9'
}

/// What std `usize::from_str` accepts: an optional `+`, then at least one
/// digit and nothing else, with a value that fits.
pub open spec fn parse_usize_spec(s: Seq<char>) -> Option<nat> {
    let d = if s.len() > 0 && s[0] == '+' { s.skip(1) } else { s };
    if d.len() > 0 && all_digits(d) && digits_value(d) <= usize::MAX {
        Some(digits_value(d))
    } else {
        None
    }
}

proof fn lemma_digits_value_prefix(d: Seq<char>, k: int)
    requires
        0 <= k <= d.len(),
        all_digits(d),
    ensures
        digits_value(d.take(k)) <= digits_value(d),
    decreases d.len(),
{
    if k < d.len() {
        assert(d.drop_last().take(k) =~= d.take(k));
        assert forall|i: int| 0 <= i < d.drop_last().len() implies '0' <= #[trigger] d.drop_last()[i] <= '9' by {
            assert(d.drop_last()[i] == d[i]);
        }
        lemma_digits_value_prefix(d.drop_last(), k);
    } else {
        assert(d.take(k) =~= d);
    }
}

/// Parses an array index the way std `usize::from_str` does.
pub fn parse_usize(s: &[char]) -> (r: Option<usize>)
    ensures
        r is Some ==> parse_usize_spec(s@) == Some(r->Some_0 as nat),
        r is None ==> parse_usize_spec(s@) is None,
{
    let n = s.len();
    let start: usize = if n > 0 && s[0] == '+' { 1 } else { 0 };
    let ghost d = if s@.len() > 0 && s@[0] == '+' { s@.skip(1) } else { s@ };
    assert(d =~= s@.skip(start as int));
    if start >= n {
        return None;
    }
    let mut v: usize = 0;
    let mut i: usize = start;
    assert(d.take(0) =~= Seq::<char>::empty());
    while i < n
        invariant
            start <= i <= n,
            n == s@.len(),
            d == s@.skip(start as int),
            d == (if s@.len() > 0 && s@[0] == '+' { s@.skip(1) } else { s@ }),
            d.len() > 0,
            all_digits(d.take(i - start)),
            v as nat == digits_value(d.take(i - start)),
        decreases n - i,
    {
        let c = s[i];
        assert(d[i - start] == c);
        if c < '0' || c > '9' {
            assert(!all_digits(d));
            return None;
        }
        let digit: usize = if c == '0' { 0 } else if c == '1' { 1 } else if c == '2' { 2 } else if c == '3' { 3 }
            else if c == '4' { 4 } else if c == '5' { 5 } else if c == '6' { 6 } else if c == '7' { 7 }
            else if c == '8' { 8 } else { 9 };
        assert(digit == c as nat - '0' as nat);
        let ghost t = d.take(i - start + 1);
        assert(t.drop_last() =~= d.take(i - start));
        assert(t.last() == c);
        assert(all_digits(t)) by {
            assert forall|k: int| 0 <= k < t.len() implies '0' <= #[trigger] t[k] <= '9' by {
                if k < t.len() - 1 {
                    assert(t[k] == d.take(i - start)[k]);
                }
            }
        }
        if v > (usize::MAX - digit) / 10 {
            proof {
                assert(digits_value(t) == v * 10 + digit);
                assert(digits_value(t) > usize::MAX) by (nonlinear_arith)
                    requires
                        v > (usize::MAX - digit) / 10,
                        digits_value(t) == v * 10 + digit,
                        digit <= 9;
                if all_digits(d) {
                    lemma_digits_value_prefix(d, i - start + 1);
                }
            }
            return None;
        }
        assert(v * 10 + digit <= usize::MAX) by (nonlinear_arith)
            requires
                v <= (usize::MAX - digit) / 10,
                digit <= 9;
        v = v * 10 + digit;
        i = i + 1;
    }
    assert(d.take(n - start) =~= d);
    Some(v)
}

/// `s` without all leading repetitions of `p`.
pub open spec fn strip_all_start(s: Seq<char>, p: Seq<char>) -> Seq<char>
    decreases s.len(),
{
    if p.len() > 0 && is_prefix(p, s) { strip_all_start(s.skip(p.len() as int), p) } else { s }
}

/// `s` without all trailing repetitions of `p`.
pub open spec fn strip_all_end(s: Seq<char>, p: Seq<char>) -> Seq<char>
    decreases s.len(),
{
    if p.len() > 0 && is_suffix(p, s) { strip_all_end(s.take(s.len() - p.len()), p) } else { s }
}

/// `s` without all leading repetitions of `p`.
pub fn strip_all_start_exec(s: &[char], p: &[char]) -> (r: Vec<char>)
    ensures
        r@ == strip_all_start(s@, p@),
{
    let mut cur: Vec<char> = sub_chars(s, 0, s.len());
    assert(cur@ =~= s@);
    while p.len() > 0 && starts_with(&cur, p)
        invariant
            strip_all_start(cur@, p@) == strip_all_start(s@, p@),
        decreases cur@.len(),
    {
        let n = cur.len();
        cur = sub_chars(&cur, p.len(), n);
    }
    cur
}

/// `s` without all trailing repetitions of `p`.
pub fn strip_all_end_exec(s: &[char], p: &[char]) -> (r: Vec<char>)
    ensures
        r@ == strip_all_end(s@, p@),
{
    let mut cur: Vec<char> = sub_chars(s, 0, s.len());
    assert(cur@ =~= s@);
    while p.len() > 0 && ends_with(&cur, p)
        invariant
            strip_all_end(cur@, p@) == strip_all_end(s@, p@),
        decreases cur@.len(),
    {
        let n = cur.len();
        cur = sub_chars(&cur, 0, n - p.len());
    }
    cur
}

/// What std `i64::from_str` accepts: an optional sign, then at least one
/// digit and nothing else, with a value in range.
pub open spec fn parse_i64_spec(s: Seq<char>) -> Option<int> {
    let neg = s.len() > 0 && s[0] == '-';
    let d = if s.len() > 0 && (s[0] == '-' || s[0] == '+') { s.skip(1) } else { s };
    if d.len() > 0 && all_digits(d) {
        let v = digits_value(d);
        if neg {
            if v <= 0x8000_0000_0000_0000 { Some(-v) } else { None }
        } else {
            if v <= i64::MAX { Some(v as int) } else { None }
        }
    } else {
        None
    }
}

/// Parses a signed decimal integer the way std `i64::from_str` does.
pub fn parse_i64(s: &[char]) -> (r: Option<i64>)
    ensures
        r is Some ==> parse_i64_spec(s@) == Some(r->Some_0 as int),
        r is None ==> parse_i64_spec(s@) is None,
{
    let n = s.len();
    let neg = n > 0 && s[0] == '-';
    let start: usize = if n > 0 && (s[0] == '-' || s[0] == '+') { 1 } else { 0 };
    let limit: u64 = if neg { 0x8000_0000_0000_0000u64 } else { 0x7fff_ffff_ffff_ffffu64 };
    let ghost d = if s@.len() > 0 && (s@[0] == '-' || s@[0] == '+') { s@.skip(1) } else { s@ };
    assert(d =~= s@.skip(start as int));
    if start >= n {
        return None;
    }
    let mut v: u64 = 0;
    let mut i: usize = start;
    assert(d.take(0) =~= Seq::<char>::empty());
    while i < n
        invariant
            start <= i <= n,
            n == s@.len(),
            d == s@.skip(start as int),
            d == (if s@.len() > 0 && (s@[0] == '-' || s@[0] == '+') { s@.skip(1) } else { s@ }),
            d.len() > 0,
            neg == (s@.len() > 0 && s@[0] == '-'),
            limit == (if neg { 0x8000_0000_0000_0000u64 } else { 0x7fff_ffff_ffff_ffffu64 }),
            all_digits(d.take(i - start)),
            v as nat == digits_value(d.take(i - start)),
            v <= limit,
        decreases n - i,
    {
        let c = s[i];
        assert(d[i - start] == c);
        if c < '0' || c > '9' {
            assert(!all_digits(d));
            return None;
        }
        let digit: u64 = if c == '0' { 0 } else if c == '1' { 1 } else if c == '2' { 2 } else if c == '3' { 3 }
            else if c == '4' { 4 } else if c == '5' { 5 } else if c == '6' { 6 } else if c == '7' { 7 }
            else if c == '8' { 8 } else { 9 };
        assert(digit == c as nat - '0' as nat);
        let ghost t = d.take(i - start + 1);
        assert(t.drop_last() =~= d.take(i - start));
        assert(t.last() == c);
        assert(all_digits(t)) by {
            assert forall|k: int| 0 <= k < t.len() implies '0' <= #[trigger] t[k] <= '9' by {
                if k < t.len() - 1 {
                    assert(t[k] == d.take(i - start)[k]);
                }
            }
        }
        if v > (limit - digit) / 10 {
            proof {
                assert(digits_value(t) == v * 10 + digit);
                assert(digits_value(t) > limit) by (nonlinear_arith)
                    requires
                        v > (limit - digit) / 10,
                        digits_value(t) == v * 10 + digit,
                        digit <= 9;
                if all_digits(d) {
                    lemma_digits_value_prefix(d, i - start + 1);
                }
            }
            return None;
        }
        assert(v * 10 + digit <= limit) by (nonlinear_arith)
            requires
                v <= (limit - digit) / 10,
                digit <= 9;
        v = v * 10 + digit;
        i = i + 1;
    }
    assert(d.take(n - start) =~= d);
    if neg {
        if v == 0x8000_0000_0000_0000u64 {
            Some(i64::MIN)
        } else {
            Some(-(v as i64))
        }
    } else {
        Some(v as i64)
    }
}

} // verus!
