//! The memory of a running program: a stack of scopes, of which only the
//! topmost is ever read or written.

use vstd::prelude::*;
use vstd::hash_map::StringHashMap;
use crate::value::{Value, ValueView};

verus! {

/// A scope as contracts see it: a finite map from names to values.
pub type ScopeView = Map<Seq<char>, ValueView>;

/// A memory as contracts see it: its scopes, the base scope first and the
/// current one last.
pub type MemoryView = Seq<ScopeView>;

/// The memory `m` with `key` bound to `value` in its current scope.
pub open spec fn store(m: MemoryView, key: Seq<char>, value: ValueView) -> MemoryView {
    m.update(m.len() - 1, m.last().insert(key, value))
}

/// The memory `m` without a binding for `key` in its current scope.
pub open spec fn erase(m: MemoryView, key: Seq<char>) -> MemoryView {
    m.update(m.len() - 1, m.last().remove(key))
}

/// What `key` is bound to in the current scope of `m`, if anything.
pub open spec fn lookup(m: MemoryView, key: Seq<char>) -> Option<ValueView> {
    if m.last().contains_key(key) {
        Some(m.last()[key])
    } else {
        None
    }
}

/// The view of a value that may be absent.
pub open spec fn optional_view(v: Option<Value>) -> Option<ValueView> {
    match v {
        Some(v) => Some(v@),
        None => None,
    }
}

/// One table from names to values.
pub struct Scope {
    table: StringHashMap<Value>,
}

impl View for Scope {
    type V = ScopeView;

    closed spec fn view(&self) -> ScopeView {
        self.table@.map_values(|v: Value| v@)
    }
}

impl Scope {
    /// A scope without bindings.
    pub fn new() -> (r: Scope)
        ensures
            r@ == Map::<Seq<char>, ValueView>::empty(),
    {
        let r = Scope { table: StringHashMap::new() };
        proof {
            assert(r@ =~= Map::<Seq<char>, ValueView>::empty());
        }
        r
    }

    /// Binds `key` to `value`, in place of any earlier binding.
    pub fn insert(&mut self, key: String, value: Value)
        ensures
            final(self)@ == old(self)@.insert(key@, value@),
    {
        self.table.insert(key, value);
        proof {
            assert(self@ =~= old(self)@.insert(key@, value@));
        }
    }

    /// The value that `key` is bound to.
    pub fn get(&self, key: &str) -> (r: Option<&Value>)
        ensures
            match r {
                Some(v) => self@.contains_key(key@) && v@ == self@[key@],
                None => !self@.contains_key(key@),
            },
    {
        self.table.get(key)
    }

    /// Tells whether `key` is bound.
    pub fn contains_key(&self, key: &str) -> (r: bool)
        ensures
            r == self@.contains_key(key@),
    {
        self.table.contains_key(key)
    }

    /// Drops the binding of `key`, if there is one.
    pub fn remove(&mut self, key: &str)
        ensures
            final(self)@ == old(self)@.remove(key@),
    {
        self.table.remove(key);
        proof {
            assert(self@ =~= old(self)@.remove(key@));
        }
    }
}

/// A stack of scopes. The base scope is never popped, so there is always a
/// current scope; lookups and updates never reach below it.
pub struct Memory {
    stack: Vec<Scope>,
}

impl View for Memory {
    type V = MemoryView;

    closed spec fn view(&self) -> MemoryView {
        self.stack@.map_values(|s: Scope| s@)
    }
}

impl Memory {
    /// There is a current scope.
    pub open spec fn wf(&self) -> bool {
        self@.len() > 0
    }

    /// A memory whose base scope is `init`.
    pub fn new(init: Scope) -> (r: Memory)
        ensures
            r.wf(),
            r@ == seq![init@],
    {
        let mut stack: Vec<Scope> = Vec::new();
        stack.push(init);
        let r = Memory { stack };
        proof {
            assert(r@ =~= seq![init@]);
        }
        r
    }

    /// The value that `key` is bound to in the current scope.
    pub fn get(&self, key: String) -> (r: Option<&Value>)
        requires
            self.wf(),
        ensures
            match r {
                Some(v) => lookup(self@, key@) == Some(v@),
                None => lookup(self@, key@) is None,
            },
    {
        let n = self.stack.len();
        self.stack[n - 1].get(key.as_str())
    }

    /// Binds `key` to `value` in the current scope and returns what it was
    /// bound to before.
    pub fn insert(&mut self, key: String, value: Value) -> (r: Option<Value>)
        requires
            old(self).wf(),
        ensures
            final(self).wf(),
            final(self)@ == store(old(self)@, key@, value@),
            optional_view(r) == lookup(old(self)@, key@),
    {
        let n = self.stack.len();
        let previous = match self.stack[n - 1].get(key.as_str()) {
            Some(v) => Some(v.clone()),
            None => None,
        };
        let top = &mut self.stack[n - 1];
        top.insert(key, value);
        proof {
            assert(self@ =~= store(old(self)@, key@, value@));
        }
        previous
    }

    /// Drops the binding of `key` in the current scope and returns what it
    /// was bound to.
    pub fn remove(&mut self, key: String) -> (r: Option<Value>)
        requires
            old(self).wf(),
        ensures
            final(self).wf(),
            final(self)@ == erase(old(self)@, key@),
            optional_view(r) == lookup(old(self)@, key@),
    {
        let n = self.stack.len();
        let previous = match self.stack[n - 1].get(key.as_str()) {
            Some(v) => Some(v.clone()),
            None => None,
        };
        let top = &mut self.stack[n - 1];
        top.remove(key.as_str());
        proof {
            assert(self@ =~= erase(old(self)@, key@));
        }
        previous
    }

    /// Enters a new scope, which becomes the current one.
    pub fn push_scope(&mut self, init: Scope)
        ensures
            final(self).wf(),
            final(self)@ == old(self)@.push(init@),
    {
        self.stack.push(init);
        proof {
            assert(self@ =~= old(self)@.push(init@));
        }
    }

    /// Leaves the current scope and returns it. The base scope stays: with
    /// no other scope left, nothing is popped.
    pub fn pop_scope(&mut self) -> (r: Option<Scope>)
        ensures
            old(self)@.len() > 1 ==> r is Some && r->0@ == old(self)@.last() && final(self)@
                == old(self)@.drop_last(),
            old(self)@.len() <= 1 ==> r is None && final(self)@ == old(self)@,
    {
        if self.stack.len() > 1 {
            let top = self.stack.pop();
            proof {
                assert(self@ =~= old(self)@.drop_last());
            }
            top
        } else {
            None
        }
    }

    /// The current scope.
    pub fn current_scope(&self) -> (r: Option<&Scope>)
        ensures
            match r {
                Some(scope) => self.wf() && scope@ == self@.last(),
                None => !self.wf(),
            },
    {
        let n = self.stack.len();
        if n > 0 {
            Some(&self.stack[n - 1])
        } else {
            None
        }
    }

    /// The current scope, for writing: what the caller leaves in it is what
    /// the memory holds afterwards.
    pub fn current_scope_mut(&mut self) -> (r: Option<&mut Scope>)
        ensures
            match r {
                Some(scope) => old(self).wf() && scope@ == old(self)@.last() && final(self)@
                    == old(self)@.update(old(self)@.len() - 1, final(scope)@),
                None => !old(self).wf() && final(self)@ == old(self)@,
            },
    {
        let n = self.stack.len();
        if n > 0 {
            Some(&mut self.stack[n - 1])
        } else {
            None
        }
    }

    /// The number of scopes.
    pub fn depth(&self) -> (r: usize)
        ensures
            r == self@.len(),
    {
        self.stack.len()
    }
}

} // verus!
