//! The environment: a chain of scopes, each a table from names to values
//! with an optional parent link. Scopes are shared and mutably aliased
//! (closures keep their defining scope alive), so they live in an arena
//! addressed by index; a scope identifier is an index into the arena, and
//! the arena lives for the whole run.
//!
//! Lookup and mutation walk innermost to outermost; the first match wins.
//! Declaration always writes the innermost scope. There is no single-key
//! deletion; a scope is only ever discarded whole (by the arena being
//! dropped at the end of the run).

use vstd::prelude::*;

use crate::value::Value;
use crate::value::SpecValue;
use crate::value::view_val;
use crate::value::copy_value;

verus! {

/// One scope: a binding table and an optional parent link.
pub struct Scope {
    parent: Option<usize>,
    entries: Vec<(String, Value)>,
}

/// The arena of scopes. Index 0 is the root.
pub struct Environment {
    scopes: Vec<Scope>,
}

/// Model of one scope.
#[verifier::ext_equal]
pub struct SpecScope {
    pub parent: Option<int>,
    pub table: Map<Seq<char>, SpecValue>,
}

/// Model of a binding table: later entries win, exactly as a scan from the
/// newest entry backwards does.
pub closed spec fn view_entries(s: Seq<(String, Value)>) -> Map<Seq<char>, SpecValue>
    decreases s,
{
    if s.len() == 0 {
        Map::empty()
    } else {
        view_entries(s.drop_last()).insert(s.last().0@, view_val(s.last().1))
    }
}

pub closed spec fn view_scope(s: Scope) -> SpecScope {
    SpecScope {
        parent: match s.parent {
            Option::Some(p) => Option::Some(p as int),
            Option::None => Option::None,
        },
        table: view_entries(s.entries@),
    }
}

impl View for Environment {
    type V = Seq<SpecScope>;

    closed spec fn view(&self) -> Seq<SpecScope> {
        self.scopes@.map_values(|s: Scope| view_scope(s))
    }
}

/// The arena a fresh root environment has: one empty, parentless scope.
pub open spec fn sp_root_scopes() -> Seq<SpecScope> {
    seq![SpecScope { parent: Option::None, table: Map::empty() }]
}

/// Declaring writes the named scope's table and nothing else; an index
/// outside the arena leaves it unchanged.
pub open spec fn sp_declare(m: Seq<SpecScope>, s: int, name: Seq<char>, v: SpecValue) -> Seq<
    SpecScope,
> {
    if 0 <= s < m.len() {
        m.update(s, SpecScope { parent: m[s].parent, table: m[s].table.insert(name, v) })
    } else {
        m
    }
}

/// A new child scope: appended to the arena, sharing the parent by index.
pub open spec fn sp_new_child(m: Seq<SpecScope>, parent: int) -> Seq<SpecScope> {
    m.push(SpecScope { parent: Option::Some(parent), table: Map::empty() })
}

/// Lookup walks innermost to outermost; the first scope whose table holds
/// the name wins. Parent links that do not point strictly downwards in the
/// arena end the walk (a fresh arena never produces such a link).
pub open spec fn sp_lookup(m: Seq<SpecScope>, s: int, name: Seq<char>) -> Option<SpecValue>
    decreases s,
{
    if 0 <= s < m.len() {
        if m[s].table.contains_key(name) {
            Option::Some(m[s].table[name])
        } else {
            match m[s].parent {
                Option::Some(p) => if 0 <= p < s {
                    sp_lookup(m, p, name)
                } else {
                    Option::None
                },
                Option::None => Option::None,
            }
        }
    } else {
        Option::None
    }
}

/// The scope that a mutating assignment targets: the innermost scope on the
/// chain whose table holds the name.
pub open spec fn sp_resolve(m: Seq<SpecScope>, s: int, name: Seq<char>) -> Option<int>
    decreases s,
{
    if 0 <= s < m.len() {
        if m[s].table.contains_key(name) {
            Option::Some(s)
        } else {
            match m[s].parent {
                Option::Some(p) => if 0 <= p < s {
                    sp_resolve(m, p, name)
                } else {
                    Option::None
                },
                Option::None => Option::None,
            }
        }
    } else {
        Option::None
    }
}

/// Assignment: mutates the resolved scope and reports whether one was
/// found; with no declaring scope the arena is unchanged.
pub open spec fn sp_assign(m: Seq<SpecScope>, s: int, name: Seq<char>, v: SpecValue) -> (Seq<
    SpecScope,
>, bool) {
    match sp_resolve(m, s, name) {
        Option::Some(i) => (sp_declare(m, i, name, v), true),
        Option::None => (m, false),
    }
}

/// Lookup reads only the scopes at or below its starting index: two
/// arenas that agree up to that index answer alike.
pub proof fn lemma_lookup_frame(ma: Seq<SpecScope>, mb: Seq<SpecScope>, s: int, x: Seq<char>)
    requires
        0 <= s < ma.len() <= mb.len(),
        forall|i: int| 0 <= i <= s ==> ma[i] == mb[i],
    ensures
        sp_lookup(mb, s, x) == sp_lookup(ma, s, x),
    decreases s,
{
    if !ma[s].table.contains_key(x) {
        match ma[s].parent {
            Option::Some(p) => {
                if 0 <= p < s {
                    lemma_lookup_frame(ma, mb, p, x);
                }
            },
            Option::None => {},
        }
    }
}

/// Resolution reads only the scopes at or below its starting index.
pub proof fn lemma_resolve_frame(ma: Seq<SpecScope>, mb: Seq<SpecScope>, s: int, x: Seq<char>)
    requires
        0 <= s < ma.len() <= mb.len(),
        forall|i: int| 0 <= i <= s ==> ma[i] == mb[i],
    ensures
        sp_resolve(mb, s, x) == sp_resolve(ma, s, x),
    decreases s,
{
    if !ma[s].table.contains_key(x) {
        match ma[s].parent {
            Option::Some(p) => {
                if 0 <= p < s {
                    lemma_resolve_frame(ma, mb, p, x);
                }
            },
            Option::None => {},
        }
    }
}

/// A resolved scope index never lies above the starting point.
pub proof fn lemma_resolve_bound(m: Seq<SpecScope>, s: int, name: Seq<char>)
    requires
        sp_resolve(m, s, name) is Some,
    ensures
        0 <= sp_resolve(m, s, name)->Some_0 <= s,
    decreases s,
{
    if !m[s].table.contains_key(name) {
        match m[s].parent {
            Option::Some(p) => {
                if 0 <= p < s {
                    lemma_resolve_bound(m, p, name);
                }
            },
            Option::None => {},
        }
    }
}

/// Writing the scope that resolution names makes lookup from the same
/// starting point see the new value.
pub proof fn lemma_declare_resolved(m: Seq<SpecScope>, s: int, name: Seq<char>, v: SpecValue)
    requires
        sp_resolve(m, s, name) is Some,
    ensures
        sp_lookup(sp_declare(m, sp_resolve(m, s, name)->Some_0, name, v), s, name)
            == Option::Some(v),
    decreases s,
{
    let i = sp_resolve(m, s, name)->Some_0;
    if m[s].table.contains_key(name) {
        assert(i == s);
    } else {
        match m[s].parent {
            Option::Some(p) => {
                lemma_resolve_bound(m, p, name);
                lemma_declare_resolved(m, p, name, v);
                assert(sp_declare(m, i, name, v)[s] == m[s]);
            },
            Option::None => {},
        }
    }
}

/// Shadowing: declaring a name in a freshly opened child scope leaves
/// every lookup through the outer scope unchanged — the outer binding is
/// not altered, and after the child scope is abandoned the outer scope
/// answers exactly as before.
pub proof fn lemma_child_declare_no_outer_effect(
    m: Seq<SpecScope>,
    outer: int,
    name: Seq<char>,
    v: SpecValue,
    x: Seq<char>,
)
    requires
        0 <= outer < m.len(),
    ensures
        sp_lookup(
            sp_declare(sp_new_child(m, outer), m.len() as int, name, v),
            outer,
            x,
        ) == sp_lookup(m, outer, x),
{
    let m1 = sp_new_child(m, outer);
    let m2 = sp_declare(m1, m.len() as int, name, v);
    assert(forall|i: int| 0 <= i <= outer ==> m[i] == m2[i]);
    lemma_lookup_frame(m, m2, outer, x);
}

/// Mutation through a child: assigning (never declaring) a name from a
/// freshly opened child scope that does not itself declare it writes the
/// nearest outer declaring scope, so lookup from the outer scope sees the
/// new value after the block.
pub proof fn lemma_child_assign_mutates_outer(
    m: Seq<SpecScope>,
    outer: int,
    name: Seq<char>,
    v: SpecValue,
)
    requires
        0 <= outer < m.len(),
        sp_resolve(m, outer, name) is Some,
    ensures
        sp_assign(sp_new_child(m, outer), m.len() as int, name, v).1,
        sp_lookup(
            sp_assign(sp_new_child(m, outer), m.len() as int, name, v).0,
            outer,
            name,
        ) == Option::Some(v),
{
    let m1 = sp_new_child(m, outer);
    let child = m.len() as int;
    assert(forall|i: int| 0 <= i <= outer ==> m[i] == m1[i]);
    lemma_resolve_frame(m, m1, outer, name);
    assert(sp_resolve(m1, child, name) == sp_resolve(m1, outer, name));
    lemma_declare_resolved(m1, outer, name, v);
}

pub open spec fn view_opt_val(o: Option<Value>) -> Option<SpecValue> {
    match o {
        Option::Some(v) => Option::Some(view_val(v)),
        Option::None => Option::None,
    }
}

/// Index of the newest entry for `name`, scanning backwards.
pub open spec fn sp_find(s: Seq<(String, Value)>, name: Seq<char>) -> Option<int>
    decreases s,
{
    if s.len() == 0 {
        Option::None
    } else if s.last().0@ == name {
        Option::Some(s.len() - 1)
    } else {
        sp_find(s.drop_last(), name)
    }
}

proof fn lemma_find_entries(s: Seq<(String, Value)>, name: Seq<char>)
    ensures
        match sp_find(s, name) {
            Option::Some(i) => 0 <= i < s.len() && s[i].0@ == name && view_entries(
                s,
            ).contains_key(name) && view_entries(s)[name] == view_val(s[i].1),
            Option::None => !view_entries(s).contains_key(name),
        },
    decreases s,
{
    if s.len() > 0 && s.last().0@ != name {
        lemma_find_entries(s.drop_last(), name);
    }
}

proof fn lemma_update_entries(s: Seq<(String, Value)>, i: int, name: Seq<char>, v: Value)
    requires
        sp_find(s, name) == Option::Some(i),
        0 <= i < s.len(),
        s[i].0@ == name,
    ensures
        view_entries(s.update(i, (s[i].0, v))) =~= view_entries(s).insert(name, view_val(v)),
    decreases s,
{
    let upd = s.update(i, (s[i].0, v));
    if i == s.len() - 1 {
        assert(upd.drop_last() =~= s.drop_last());
        assert(upd.last() == (s[i].0, v));
    } else {
        assert(s.last().0@ != name);
        assert(upd.drop_last() =~= s.drop_last().update(i, (s[i].0, v)));
        assert(sp_find(s.drop_last(), name) == Option::Some(i));
        assert(s.drop_last()[i] == s[i]);
        lemma_update_entries(s.drop_last(), i, name, v);
        assert(upd.last() == s.last());
    }
}

fn find_in_scope(entries: &Vec<(String, Value)>, name: &String) -> (r: Option<usize>)
    ensures
        match r {
            Option::Some(i) => sp_find(entries@, name@) == Option::Some(i as int),
            Option::None => sp_find(entries@, name@) == Option::None::<int>,
        },
{
    let mut i: usize = entries.len();
    proof {
        assert(entries@.subrange(0, entries@.len() as int) =~= entries@);
    }
    while i > 0
        invariant
            0 <= i <= entries@.len(),
            sp_find(entries@, name@) == sp_find(entries@.subrange(0, i as int), name@),
        decreases i,
    {
        i = i - 1;
        let hit = entries[i].0 == *name;
        proof {
            let sub = entries@.subrange(0, i + 1);
            assert(sub.last() == entries@[i as int]);
            assert(sub.drop_last() =~= entries@.subrange(0, i as int));
        }
        if hit {
            return Option::Some(i);
        }
    }
    Option::None
}

impl Environment {
    /// A fresh root environment: a single empty, parentless scope.
    pub fn new_root() -> (e: Environment)
        ensures
            e@ =~= sp_root_scopes(),
    {
        let mut scopes: Vec<Scope> = Vec::new();
        scopes.push(Scope { parent: Option::None, entries: Vec::new() });
        Environment { scopes }
    }

    /// How many scopes the arena holds.
    pub fn len(&self) -> (n: usize)
        ensures
            n == self@.len(),
    {
        self.scopes.len()
    }

    /// Opens a new scope whose parent is `parent` and returns its index.
    pub fn create_child(&mut self, parent: usize) -> (c: usize)
        ensures
            final(self)@ =~= sp_new_child(old(self)@, parent as int),
            c == old(self)@.len(),
    {
        let c = self.scopes.len();
        self.scopes.push(Scope { parent: Option::Some(parent), entries: Vec::new() });
        c
    }

    /// Declares (inserts or overwrites) `name` in scope `scope` only: it
    /// always shadows and never touches outer scopes.
    pub fn declare(&mut self, scope: usize, name: &String, value: Value)
        ensures
            final(self)@ =~= sp_declare(old(self)@, scope as int, name@, view_val(value)),
    {
        if scope < self.scopes.len() {
            let ghost old_entries = self.scopes@[scope as int].entries@;
            let s = &mut self.scopes[scope];
            s.entries.push((name.clone(), value));
            proof {
                assert(s.entries@.drop_last() =~= old_entries);
                assert(self@ =~= sp_declare(old(self)@, scope as int, name@, view_val(value)));
            }
        }
    }

    /// Searches innermost to outermost and returns a structural copy of the
    /// first binding found, or `None` if the name is absent everywhere.
    pub fn get(&self, scope: usize, name: &String) -> (r: Option<Value>)
        ensures
            view_opt_val(r) == sp_lookup(self@, scope as int, name@),
    {
        let mut cur = scope;
        loop
            invariant
                sp_lookup(self@, scope as int, name@) == sp_lookup(self@, cur as int, name@),
            decreases cur,
        {
            if cur >= self.scopes.len() {
                return Option::None;
            }
            let found = find_in_scope(&self.scopes[cur].entries, name);
            proof {
                lemma_find_entries(self.scopes@[cur as int].entries@, name@);
            }
            match found {
                Option::Some(i) => {
                    return Option::Some(copy_value(&self.scopes[cur].entries[i].1));
                },
                Option::None => {
                    match self.scopes[cur].parent {
                        Option::Some(p) => {
                            if p < cur {
                                cur = p;
                            } else {
                                return Option::None;
                            }
                        },
                        Option::None => {
                            return Option::None;
                        },
                    }
                },
            }
        }
    }

    /// Mutates the innermost scope on the chain that declares `name`;
    /// returns whether such a scope was found. Assignment through this
    /// method never declares.
    pub fn set(&mut self, scope: usize, name: &String, value: Value) -> (found: bool)
        ensures
            final(self)@ =~= sp_assign(old(self)@, scope as int, name@, view_val(value)).0,
            found == sp_assign(old(self)@, scope as int, name@, view_val(value)).1,
    {
        let mut cur = scope;
        loop
            invariant
                self == old(self),
                sp_resolve(self@, scope as int, name@) == sp_resolve(self@, cur as int, name@),
            decreases cur,
        {
            if cur >= self.scopes.len() {
                return false;
            }
            let found = find_in_scope(&self.scopes[cur].entries, name);
            proof {
                lemma_find_entries(self.scopes@[cur as int].entries@, name@);
            }
            match found {
                Option::Some(i) => {
                    let ghost entries0 = self.scopes@[cur as int].entries@;
                    let s = &mut self.scopes[cur];
                    let key = s.entries[i].0.clone();
                    s.entries.set(i, (key, value));
                    proof {
                        assert(entries0[i as int].0@ == name@);
                        lemma_update_entries(
                            entries0,
                            i as int,
                            name@,
                            s.entries@[i as int].1,
                        );
                        assert(s.entries@ =~= entries0.update(
                            i as int,
                            (entries0[i as int].0, s.entries@[i as int].1),
                        ));
                        assert(self@ =~= sp_declare(old(self)@, cur as int, name@, view_val(
                            s.entries@[i as int].1,
                        )));
                    }
                    return true;
                },
                Option::None => {
                    match self.scopes[cur].parent {
                        Option::Some(p) => {
                            if p < cur {
                                cur = p;
                            } else {
                                return false;
                            }
                        },
                        Option::None => {
                            return false;
                        },
                    }
                },
            }
        }
    }
}

} // verus!
