//! Event routing: which registered handlers an emitted event reaches.
//!
//! Handlers themselves are closures owned by the caller; the registry here
//! records handler ids per event name and decides, for every emitted event,
//! which ids run and in what order.

use vstd::prelude::*;
use vstd::string::*;
use crate::text::{chars_of, split_chars, split_on, has_char, find_char, first_index, lemma_first_index, str_eq, chars_eq};

verus! {

/// `pattern` matches `event` segment by segment (segments are separated by
/// `.`), where a `*` segment matches any single segment.
pub open spec fn wildcard_match(pattern: Seq<char>, event: Seq<char>) -> bool {
    let ps = split_on(pattern, '.');
    let es = split_on(event, '.');
    ps.len() == es.len() && forall|i: int| 0 <= i < ps.len() ==> (#[trigger] ps[i] == seq!['*'] || ps[i] == es[i])
}

/// Whether `pattern` matches `event` (see `wildcard_match`).
pub fn matches_wildcard(pattern: &str, event: &str) -> (r: bool)
    ensures
        r == wildcard_match(pattern@, event@),
{
    let pc = chars_of(pattern);
    let ec = chars_of(event);
    let ps = split_chars(&pc, '.');
    let es = split_chars(&ec, '.');
    if ps.len() != es.len() {
        return false;
    }
    let star: Vec<char> = vec!['*'];
    let mut i: usize = 0;
    while i < ps.len()
        invariant
            ps@.len() == es@.len(),
            ps@.len() == split_on(pattern@, '.').len(),
            es@.len() == split_on(event@, '.').len(),
            forall|k: int| 0 <= k < ps@.len() ==> #[trigger] ps@[k]@ == split_on(pattern@, '.')[k],
            forall|k: int| 0 <= k < es@.len() ==> #[trigger] es@[k]@ == split_on(event@, '.')[k],
            star@ == seq!['*'],
            i <= ps@.len(),
            forall|k: int| 0 <= k < i ==> (#[trigger] split_on(pattern@, '.')[k] == seq!['*']
                || split_on(pattern@, '.')[k] == split_on(event@, '.')[k]),
        decreases ps@.len() - i,
    {
        let is_star = chars_eq(&ps[i], &star);
        let same = chars_eq(&ps[i], &es[i]);
        if !is_star && !same {
            assert(!(split_on(pattern@, '.')[i as int] == seq!['*']
                || split_on(pattern@, '.')[i as int] == split_on(event@, '.')[i as int]));
            return false;
        }
        i = i + 1;
    }
    true
}

/// Handler ids registered per event name.
pub struct HandlerRegistry {
    entries: Vec<(String, Vec<u64>)>,
}

/// The registry as a sequence of (event name, handler ids) in registration order.
pub open spec fn entries_view(entries: Seq<(String, Vec<u64>)>) -> Seq<(Seq<char>, Seq<u64>)> {
    Seq::new(entries.len(), |i: int| (entries[i].0@, entries[i].1@))
}

/// Handlers registered under exactly `event`.
pub open spec fn exact_ids(reg: Seq<(Seq<char>, Seq<u64>)>, event: Seq<char>) -> Seq<u64>
    decreases reg.len(),
{
    if reg.len() == 0 {
        seq![]
    } else if reg[0].0 == event {
        reg[0].1
    } else {
        exact_ids(reg.skip(1), event)
    }
}

/// Handlers registered under a pattern that holds `*` and matches `event`,
/// pattern by pattern in registration order.
pub open spec fn wildcard_ids(reg: Seq<(Seq<char>, Seq<u64>)>, event: Seq<char>) -> Seq<u64>
    decreases reg.len(),
{
    if reg.len() == 0 {
        seq![]
    } else {
        let here = if has_char(reg[0].0, '*') && wildcard_match(reg[0].0, event) {
            reg[0].1
        } else {
            seq![]
        };
        here + wildcard_ids(reg.skip(1), event)
    }
}

/// Event names occur at most once.
pub open spec fn keys_unique(reg: Seq<(Seq<char>, Seq<u64>)>) -> bool {
    forall|i: int, j: int| 0 <= i < j < reg.len() ==> reg[i].0 != reg[j].0
}

proof fn lemma_exact_ids_at(reg: Seq<(Seq<char>, Seq<u64>)>, event: Seq<char>, k: int)
    requires
        keys_unique(reg),
        0 <= k < reg.len(),
        reg[k].0 == event,
    ensures
        exact_ids(reg, event) == reg[k].1,
    decreases reg.len(),
{
    if k > 0 {
        assert(reg[0].0 != reg[k].0);
        lemma_exact_ids_at(reg.skip(1), event, k - 1);
    }
}

proof fn lemma_exact_ids_absent(reg: Seq<(Seq<char>, Seq<u64>)>, event: Seq<char>)
    requires
        forall|k: int| 0 <= k < reg.len() ==> reg[k].0 != event,
    ensures
        exact_ids(reg, event) == Seq::<u64>::empty(),
    decreases reg.len(),
{
    if reg.len() > 0 {
        lemma_exact_ids_absent(reg.skip(1), event);
    }
}

proof fn lemma_wildcard_ids_push(reg: Seq<(Seq<char>, Seq<u64>)>, e: (Seq<char>, Seq<u64>), event: Seq<char>)
    ensures
        wildcard_ids(reg.push(e), event) == wildcard_ids(reg, event) + (if has_char(e.0, '*')
            && wildcard_match(e.0, event) {
            e.1
        } else {
            seq![]
        }),
    decreases reg.len(),
{
    let x = if has_char(e.0, '*') && wildcard_match(e.0, event) {
        e.1
    } else {
        seq![]
    };
    if reg.len() == 0 {
        assert(reg.push(e).skip(1) =~= Seq::<(Seq<char>, Seq<u64>)>::empty());
        assert(reg.push(e)[0] == e);
        assert(wildcard_ids(reg.push(e).skip(1), event) =~= Seq::<u64>::empty());
        assert(wildcard_ids(reg.push(e), event) =~= x + Seq::<u64>::empty());
        assert(wildcard_ids(reg, event) + x =~= x);
    } else {
        assert(reg.push(e).skip(1) =~= reg.skip(1).push(e));
        assert(reg.push(e)[0] == reg[0]);
        lemma_wildcard_ids_push(reg.skip(1), e, event);
        let here = if has_char(reg[0].0, '*') && wildcard_match(reg[0].0, event) {
            reg[0].1
        } else {
            seq![]
        };
        assert(here + (wildcard_ids(reg.skip(1), event) + x) =~= (here + wildcard_ids(reg.skip(1), event)) + x);
    }
}

impl HandlerRegistry {
    /// The registry as (event name, handler ids) pairs.
    pub closed spec fn view(&self) -> Seq<(Seq<char>, Seq<u64>)> {
        entries_view(self.entries@)
    }

    /// Well-formedness: every event name occurs once.
    pub open spec fn wf(&self) -> bool {
        keys_unique(self.view())
    }

    /// An empty registry.
    pub fn new() -> (r: HandlerRegistry)
        ensures
            r.wf(),
            r.view() == Seq::<(Seq<char>, Seq<u64>)>::empty(),
    {
        let r = HandlerRegistry { entries: Vec::new() };
        assert(r.view() =~= Seq::<(Seq<char>, Seq<u64>)>::empty());
        r
    }

    fn position(&self, event: &str) -> (r: Option<usize>)
        ensures
            match r {
                Some(k) => k < self.view().len() && self.view()[k as int].0 == event@,
                None => forall|k: int| 0 <= k < self.view().len() ==> self.view()[k].0 != event@,
            },
    {
        let mut i: usize = 0;
        while i < self.entries.len()
            invariant
                i <= self.entries@.len(),
                forall|k: int| 0 <= k < i ==> self.view()[k].0 != event@,
            decreases self.entries@.len() - i,
        {
            if str_eq(self.entries[i].0.as_str(), event) {
                return Some(i);
            }
            i = i + 1;
        }
        None
    }

    /// Registers handler `id` for `event`, after the ones already there.
    pub fn register(&mut self, event: &str, id: u64)
        requires
            old(self).wf(),
        ensures
            final(self).wf(),
            exact_ids(final(self).view(), event@) == exact_ids(old(self).view(), event@).push(id),
            forall|other: Seq<char>| other != event@ ==> exact_ids(final(self).view(), other)
                == exact_ids(old(self).view(), other),
    {
        let ghost before = self.view();
        match self.position(event) {
            Some(k) => {
                let mut entry = self.entries.remove(k);
                entry.1.push(id);
                self.entries.insert(k, entry);
                proof {
                    let after = self.view();
                    assert(after =~= before.update(k as int, (before[k as int].0, before[k as int].1.push(id))));
                    lemma_exact_ids_at(before, event@, k as int);
                    lemma_exact_ids_at(after, event@, k as int);
                    assert forall|other: Seq<char>| other != event@ implies exact_ids(after, other)
                        == exact_ids(before, other) by {
                        if exists|j: int| 0 <= j < before.len() && before[j].0 == other {
                            let j = choose|j: int| 0 <= j < before.len() && before[j].0 == other;
                            lemma_exact_ids_at(before, other, j);
                            lemma_exact_ids_at(after, other, j);
                        } else {
                            lemma_exact_ids_absent(before, other);
                            lemma_exact_ids_absent(after, other);
                        }
                    }
                }
            },
            None => {
                let mut ids: Vec<u64> = Vec::new();
                ids.push(id);
                self.entries.push((String::from_str(event), ids));
                proof {
                    let after = self.view();
                    assert(after =~= before.push((event@, seq![id])));
                    lemma_exact_ids_absent(before, event@);
                    lemma_exact_ids_at(after, event@, before.len() as int);
                    assert(seq![id] =~= Seq::<u64>::empty().push(id));
                    assert forall|other: Seq<char>| other != event@ implies exact_ids(after, other)
                        == exact_ids(before, other) by {
                        if exists|j: int| 0 <= j < before.len() && before[j].0 == other {
                            let j = choose|j: int| 0 <= j < before.len() && before[j].0 == other;
                            lemma_exact_ids_at(before, other, j);
                            lemma_exact_ids_at(after, other, j);
                        } else {
                            lemma_exact_ids_absent(before, other);
                            lemma_exact_ids_absent(after, other);
                        }
                    }
                }
            },
        }
    }

    /// Handlers registered under exactly `event`, in registration order.
    pub fn exact(&self, event: &str) -> (r: Vec<u64>)
        requires
            self.wf(),
        ensures
            r@ == exact_ids(self.view(), event@),
    {
        match self.position(event) {
            Some(k) => {
                proof {
                    lemma_exact_ids_at(self.view(), event@, k as int);
                }
                self.entries[k].1.clone()
            },
            None => {
                proof {
                    lemma_exact_ids_absent(self.view(), event@);
                }
                Vec::new()
            },
        }
    }

    /// Handlers registered under wildcard patterns that match `event`.
    pub fn wildcard(&self, event: &str) -> (r: Vec<u64>)
        ensures
            r@ == wildcard_ids(self.view(), event@),
    {
        let mut r: Vec<u64> = Vec::new();
        let mut i: usize = 0;
        while i < self.entries.len()
            invariant
                i <= self.entries@.len(),
                r@ == wildcard_ids(self.view().take(i as int), event@),
            decreases self.entries@.len() - i,
        {
            let key = &self.entries[i].0;
            let kc = chars_of(key.as_str());
            let has_star = find_char(&kc, '*');
            proof {
                lemma_first_index(kc@, '*');
                assert(self.view().take(i as int + 1) =~= self.view().take(i as int).push(self.view()[i as int]));
                lemma_wildcard_ids_push(self.view().take(i as int), self.view()[i as int], event@);
            }
            if has_star.is_some() && matches_wildcard(key.as_str(), event) {
                let ids = &self.entries[i].1;
                let mut j: usize = 0;
                let ghost r0 = r@;
                while j < ids.len()
                    invariant
                        j <= ids@.len(),
                        r@ == r0 + ids@.take(j as int),
                    decreases ids@.len() - j,
                {
                    r.push(ids[j]);
                    proof {
                        assert(ids@.take(j as int + 1) =~= ids@.take(j as int).push(ids@[j as int]));
                    }
                    j = j + 1;
                }
                proof {
                    assert(ids@.take(ids@.len() as int) =~= ids@);
                }
            } else {
                proof {
                    if has_char(kc@, '*') {
                        let w = choose|w: int| 0 <= w < kc@.len() && kc@[w] == '*';
                        assert(first_index(kc@, '*') is Some);
                    }
                    assert(r@ =~= r@ + Seq::<u64>::empty());
                }
            }
            i = i + 1;
        }
        proof {
            assert(self.view().take(self.entries@.len() as int) =~= self.view());
        }
        r
    }

    /// The filter chain for `event`: exact handlers, then wildcard handlers.
    pub fn filter_chain(&self, event: &str) -> (r: Vec<u64>)
        requires
            self.wf(),
        ensures
            r@ == exact_ids(self.view(), event@) + wildcard_ids(self.view(), event@),
    {
        let mut a = self.exact(event);
        let mut b = self.wildcard(event);
        a.append(&mut b);
        a
    }
}

/// The three handler channels of an emitter.
pub struct Emitter {
    pub filter_handlers: HandlerRegistry,
    pub action_handlers: HandlerRegistry,
    pub init_handlers: HandlerRegistry,
}

impl Emitter {
    pub open spec fn wf(&self) -> bool {
        self.filter_handlers.wf() && self.action_handlers.wf() && self.init_handlers.wf()
    }

    /// An emitter with no handlers.
    pub fn new() -> (r: Emitter)
        ensures
            r.wf(),
            r.filter_handlers.view().len() == 0,
            r.action_handlers.view().len() == 0,
            r.init_handlers.view().len() == 0,
    {
        Emitter {
            filter_handlers: HandlerRegistry::new(),
            action_handlers: HandlerRegistry::new(),
            init_handlers: HandlerRegistry::new(),
        }
    }

    /// Registers filter handler `id` for `event`.
    pub fn on_filter(&mut self, event: &str, id: u64)
        requires
            old(self).wf(),
        ensures
            final(self).wf(),
            exact_ids(final(self).filter_handlers.view(), event@) == exact_ids(
                old(self).filter_handlers.view(),
                event@,
            ).push(id),
            forall|other: Seq<char>| other != event@ ==> exact_ids(final(self).filter_handlers.view(), other)
                == exact_ids(old(self).filter_handlers.view(), other),
            final(self).action_handlers == old(self).action_handlers,
            final(self).init_handlers == old(self).init_handlers,
    {
        self.filter_handlers.register(event, id);
    }

    /// Registers action handler `id` for `event`.
    pub fn on_action(&mut self, event: &str, id: u64)
        requires
            old(self).wf(),
        ensures
            final(self).wf(),
            exact_ids(final(self).action_handlers.view(), event@) == exact_ids(
                old(self).action_handlers.view(),
                event@,
            ).push(id),
            forall|other: Seq<char>| other != event@ ==> exact_ids(final(self).action_handlers.view(), other)
                == exact_ids(old(self).action_handlers.view(), other),
            final(self).filter_handlers == old(self).filter_handlers,
            final(self).init_handlers == old(self).init_handlers,
    {
        self.action_handlers.register(event, id);
    }

    /// Registers init handler `id` for `event`.
    pub fn on_init(&mut self, event: &str, id: u64)
        requires
            old(self).wf(),
        ensures
            final(self).wf(),
            exact_ids(final(self).init_handlers.view(), event@) == exact_ids(
                old(self).init_handlers.view(),
                event@,
            ).push(id),
            forall|other: Seq<char>| other != event@ ==> exact_ids(final(self).init_handlers.view(), other)
                == exact_ids(old(self).init_handlers.view(), other),
            final(self).filter_handlers == old(self).filter_handlers,
            final(self).action_handlers == old(self).action_handlers,
    {
        self.init_handlers.register(event, id);
    }

    /// Filter handlers that `emit_filter(event)` runs, in order: those
    /// registered for exactly `event`, then those of matching wildcard patterns.
    pub fn emit_filter(&self, event: &str) -> (r: Vec<u64>)
        requires
            self.wf(),
        ensures
            r@ == exact_ids(self.filter_handlers.view(), event@) + wildcard_ids(
                self.filter_handlers.view(),
                event@,
            ),
    {
        self.filter_handlers.filter_chain(event)
    }

    /// Action handlers that `emit_action(event)` starts: those registered for exactly `event`.
    pub fn emit_action(&self, event: &str) -> (r: Vec<u64>)
        requires
            self.wf(),
        ensures
            r@ == exact_ids(self.action_handlers.view(), event@),
    {
        self.action_handlers.exact(event)
    }

    /// Init handlers that `emit_init(event)` awaits: those registered for exactly `event`.
    pub fn emit_init(&self, event: &str) -> (r: Vec<u64>)
        requires
            self.wf(),
        ensures
            r@ == exact_ids(self.init_handlers.view(), event@),
    {
        self.init_handlers.exact(event)
    }
}

} // verus!
