use vstd::prelude::*;
use crate::runtimes::{RuntimeValue, Val};

verus! {

/// One scope: its variables and the index of its parent scope.
#[derive(Debug)]
pub struct Scope {
    parent: Option<usize>,
    variables: Vec<(String, RuntimeValue)>,
}

/// The store of all scopes of an evaluation. A scope is named by its index;
/// scopes are never removed, so an index stays valid for the store's life.
#[derive(Debug)]
pub struct Env {
    scopes: Vec<Scope>,
}

/// The mathematical form of a scope.
pub struct Frame {
    pub parent: Option<nat>,
    pub vars: Map<Seq<char>, Val>,
}

/// The variables of a list of bindings; a later binding of a name hides an
/// earlier one.
pub open spec fn bindings_map(s: Seq<(Seq<char>, Val)>) -> Map<Seq<char>, Val>
    decreases s.len(),
{
    if s.len() == 0 {
        Map::empty()
    } else {
        bindings_map(s.drop_last()).insert(s.last().0, s.last().1)
    }
}

/// The mathematical form of a list of bindings.
pub open spec fn bindings_view(v: Seq<(String, RuntimeValue)>) -> Seq<(Seq<char>, Val)> {
    v.map_values(|p: (String, RuntimeValue)| (p.0@, p.1@))
}

impl View for Scope {
    type V = Frame;

    closed spec fn view(&self) -> Frame {
        Frame {
            parent: match self.parent {
                Some(p) => Some(p as nat),
                Option::None => Option::None,
            },
            vars: bindings_map(bindings_view(self.variables@)),
        }
    }
}

impl View for Env {
    type V = Seq<Frame>;

    closed spec fn view(&self) -> Seq<Frame> {
        self.scopes@.map_values(|s: Scope| s@)
    }
}

/// The value of `k` seen from scope `id`: the binding in the nearest scope
/// along the parent chain that binds it. A chain ends at a scope without a
/// parent, or at a parent link that does not point to an older scope.
pub open spec fn lookup(h: Seq<Frame>, id: nat, k: Seq<char>) -> Option<Val>
    decreases id,
{
    if id >= h.len() {
        Option::None
    } else if h[id as int].vars.contains_key(k) {
        Some(h[id as int].vars[k])
    } else {
        match h[id as int].parent {
            Some(p) => if p < id {
                lookup(h, p, k)
            } else {
                Option::None
            },
            Option::None => Option::None,
        }
    }
}

/// The store after binding `k` to `v` in scope `id` itself.
pub open spec fn assign(h: Seq<Frame>, id: nat, k: Seq<char>, v: Val) -> Seq<Frame> {
    if id < h.len() {
        h.update(id as int, Frame { parent: h[id as int].parent, vars: h[id as int].vars.insert(k, v) })
    } else {
        h
    }
}

/// The store after adding a scope with parent `parent` and variables `vars`.
pub open spec fn push_scope(h: Seq<Frame>, parent: Option<nat>, vars: Map<Seq<char>, Val>) -> Seq<Frame> {
    h.push(Frame { parent, vars })
}

/// The mathematical form of an optional value.
pub open spec fn opt_view(r: Option<RuntimeValue>) -> Option<Val> {
    match r {
        Some(v) => Some(v@),
        Option::None => Option::None,
    }
}

proof fn lemma_bindings_last(s: Seq<(Seq<char>, Val)>, i: int, k: Seq<char>)
    requires
        0 <= i < s.len(),
        s[i].0 == k,
        forall|j: int| i < j < s.len() ==> s[j].0 != k,
    ensures
        bindings_map(s).contains_key(k),
        bindings_map(s)[k] == s[i].1,
    decreases s.len(),
{
    if i < s.len() - 1 {
        lemma_bindings_last(s.drop_last(), i, k);
    }
}

proof fn lemma_bindings_absent(s: Seq<(Seq<char>, Val)>, k: Seq<char>)
    requires
        forall|j: int| 0 <= j < s.len() ==> s[j].0 != k,
    ensures
        !bindings_map(s).contains_key(k),
    decreases s.len(),
{
    if s.len() > 0 {
        lemma_bindings_absent(s.drop_last(), k);
    }
}

proof fn lemma_bindings_update(s: Seq<(Seq<char>, Val)>, i: int, k: Seq<char>, v: Val)
    requires
        0 <= i < s.len(),
        s[i].0 == k,
        forall|j: int| i < j < s.len() ==> s[j].0 != k,
    ensures
        bindings_map(s.update(i, (k, v))) == bindings_map(s).insert(k, v),
    decreases s.len(),
{
    let t = s.update(i, (k, v));
    if i == s.len() - 1 {
        assert(t.drop_last() =~= s.drop_last());
        assert(bindings_map(t) =~= bindings_map(s).insert(k, v));
    } else {
        lemma_bindings_update(s.drop_last(), i, k, v);
        assert(t.drop_last() =~= s.drop_last().update(i, (k, v)));
        assert(bindings_map(t) =~= bindings_map(s).insert(k, v));
    }
}

impl Scope {
    /// The index of the last binding of `key`.
    fn find(&self, key: &String) -> (r: Option<usize>)
        ensures
            match r {
                Some(i) => i < self.variables.len() && self.variables@[i as int].0@ == key@
                    && forall|j: int| i < j < self.variables.len() ==> self.variables@[j].0@ != key@,
                Option::None => forall|j: int| 0 <= j < self.variables.len() ==> self.variables@[j].0@ != key@,
            },
    {
        let mut i: usize = self.variables.len();
        while i > 0
            invariant
                i <= self.variables.len(),
                forall|j: int| i <= j < self.variables.len() ==> self.variables@[j].0@ != key@,
            decreases i,
        {
            if self.variables[i - 1].0 == *key {
                return Some(i - 1);
            }
            i = i - 1;
        }
        Option::None
    }

    /// The value bound to `key` in this scope alone.
    fn get_local(&self, key: &String) -> (r: Option<RuntimeValue>)
        ensures
            opt_view(r) == (if self@.vars.contains_key(key@) { Some(self@.vars[key@]) } else { Option::None::<Val> }),
    {
        let ghost pairs = bindings_view(self.variables@);
        match self.find(key) {
            Some(i) => {
                proof {
                    lemma_bindings_last(pairs, i as int, key@);
                }
                Some(self.variables[i].1.clone_value())
            },
            Option::None => {
                proof {
                    lemma_bindings_absent(pairs, key@);
                }
                Option::None
            },
        }
    }

    /// Binds `key` to `value` in this scope.
    fn set_local(&mut self, key: String, value: RuntimeValue)
        ensures
            final(self)@ == (Frame { parent: old(self)@.parent, vars: old(self)@.vars.insert(key@, value@) }),
    {
        let ghost pairs = bindings_view(self.variables@);
        let ghost k = key@;
        let ghost v = value@;
        match self.find(&key) {
            Some(i) => {
                proof {
                    lemma_bindings_update(pairs, i as int, k, v);
                }
                self.variables.set(i, (key, value));
                assert(bindings_view(self.variables@) =~= pairs.update(i as int, (k, v)));
            },
            Option::None => {
                self.variables.push((key, value));
                assert(bindings_view(self.variables@).drop_last() =~= pairs);
            },
        }
    }
}

/// A parent index in its mathematical form.
pub open spec fn parent_view(p: Option<usize>) -> Option<nat> {
    match p {
        Some(i) => Some(i as nat),
        Option::None => Option::None,
    }
}

fn clone_bindings(v: &Vec<(String, RuntimeValue)>) -> (r: Vec<(String, RuntimeValue)>)
    ensures
        bindings_view(r@) == bindings_view(v@),
{
    let mut r: Vec<(String, RuntimeValue)> = Vec::new();
    let mut i: usize = 0;
    while i < v.len()
        invariant
            i <= v.len(),
            bindings_view(r@) =~= bindings_view(v@.subrange(0, i as int)),
        decreases v.len() - i,
    {
        let k = v[i].0.clone();
        let x = v[i].1.clone_value();
        r.push((k, x));
        i = i + 1;
        assert(bindings_view(v@.subrange(0, i as int)) =~= bindings_view(v@.subrange(0, i - 1)).push((v@[i - 1].0@, v@[i - 1].1@)));
    }
    assert(v@.subrange(0, v.len() as int) =~= v@);
    r
}

/// An empty list of bindings.
pub fn no_bindings() -> (r: Vec<(String, RuntimeValue)>)
    ensures
        bindings_map(bindings_view(r@)) == Map::<Seq<char>, Val>::empty(),
{
    let r: Vec<(String, RuntimeValue)> = Vec::new();
    assert(bindings_view(r@) =~= Seq::<(Seq<char>, Val)>::empty());
    r
}

/// Appends the binding of `k` to `x`.
pub fn push_binding(v: &mut Vec<(String, RuntimeValue)>, k: String, x: RuntimeValue)
    ensures
        bindings_map(bindings_view(final(v)@)) == bindings_map(bindings_view(old(v)@)).insert(k@, x@),
{
    let ghost before = bindings_view(v@);
    v.push((k, x));
    assert(bindings_view(v@).drop_last() =~= before);
}

impl Env {
    /// A store that holds no scope yet.
    pub fn empty() -> (r: Env)
        ensures
            r@ == Seq::<Frame>::empty(),
    {
        let r = Env { scopes: Vec::new() };
        assert(r@ =~= Seq::<Frame>::empty());
        r
    }

    /// The number of scopes in the store.
    pub fn len(&self) -> (r: usize)
        ensures
            r == self@.len(),
    {
        self.scopes.len()
    }

    /// Adds a scope holding `variables` under `parent`; returns its index.
    /// A later binding of a name in `variables` hides an earlier one.
    pub fn from(&mut self, variables: Vec<(String, RuntimeValue)>, parent: Option<usize>) -> (id: usize)
        ensures
            id == old(self)@.len(),
            final(self)@ == push_scope(old(self)@, parent_view(parent), bindings_map(bindings_view(variables@))),
    {
        let ghost before = self@;
        let ghost vars = bindings_map(bindings_view(variables@));
        let scope = Scope { parent, variables };
        assert(scope@ == (Frame { parent: parent_view(parent), vars }));
        self.scopes.push(scope);
        assert(self@ =~= push_scope(before, parent_view(parent), vars));
        self.scopes.len() - 1
    }

    /// Adds an empty scope under `parent`; returns its index.
    pub fn new(&mut self, parent: Option<usize>) -> (id: usize)
        ensures
            id == old(self)@.len(),
            final(self)@ == push_scope(old(self)@, parent_view(parent), Map::empty()),
    {
        let v: Vec<(String, RuntimeValue)> = Vec::new();
        assert(bindings_map(bindings_view(v@)) =~= Map::empty());
        self.from(v, parent)
    }

    /// The value of `key` seen from scope `scope`.
    pub fn get(&self, scope: usize, key: &String) -> (r: Option<RuntimeValue>)
        ensures
            opt_view(r) == lookup(self@, scope as nat, key@),
    {
        let mut cur: usize = scope;
        loop
            invariant
                lookup(self@, cur as nat, key@) == lookup(self@, scope as nat, key@),
            decreases cur,
        {
            if cur >= self.scopes.len() {
                return Option::None;
            }
            assert(self@[cur as int] == self.scopes@[cur as int]@);
            let found = self.scopes[cur].get_local(key);
            if found.is_some() {
                return found;
            }
            match self.scopes[cur].parent {
                Some(p) => {
                    if p < cur {
                        cur = p;
                    } else {
                        return Option::None;
                    }
                },
                Option::None => {
                    return Option::None;
                },
            }
        }
    }

    /// Binds `key` to `value` in scope `scope` itself; parents are left as
    /// they are. An index outside the store changes nothing.
    pub fn set(&mut self, scope: usize, key: String, value: RuntimeValue)
        ensures
            final(self)@ == assign(old(self)@, scope as nat, key@, value@),
    {
        if scope < self.scopes.len() {
            let ghost before = self@;
            let ghost k = key@;
            let ghost v = value@;
            let mut s = self.scopes.remove(scope);
            assert(s@ == before[scope as int]);
            s.set_local(key, value);
            self.scopes.insert(scope, s);
            assert(self@ =~= assign(before, scope as nat, k, v));
        }
    }

    /// Adds a scope whose variables are a copy of those of `other`, which
    /// has no parent, and whose parent is `scope`; returns its index.
    pub fn merge(&mut self, scope: usize, other: usize) -> (id: usize)
        requires
            other < old(self)@.len(),
            old(self)@[other as int].parent is None,
        ensures
            id == old(self)@.len(),
            final(self)@ == push_scope(old(self)@, Some(scope as nat), old(self)@[other as int].vars),
    {
        assert(self@[other as int] == self.scopes@[other as int]@);
        let vars = clone_bindings(&self.scopes[other].variables);
        self.from(vars, Some(scope))
    }
}

} // verus!
