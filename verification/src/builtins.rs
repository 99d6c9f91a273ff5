//! The registry of native callables that the evaluator may call.

use vstd::prelude::*;
use crate::memory::{Scope, ScopeView};
use crate::value::{Value, ValueView};

verus! {

/// The registry as contracts see it once the defaults are registered over
/// `before`: `print` names the native callable of that name.
pub open spec fn with_defaults(before: ScopeView) -> ScopeView {
    before.insert("print"@, ValueView::BuiltinFunction("print"@))
}

/// A table from names to native callables. The evaluator consults it for
/// names that the current scope does not bind. What a callable does is the
/// host's business: the evaluator only asks for the call.
pub struct BuiltinsHandler {
    pub builtins: Scope,
}

impl BuiltinsHandler {
    /// An empty registry.
    pub fn new() -> (r: BuiltinsHandler)
        ensures
            r.builtins@ == Map::<Seq<char>, ValueView>::empty(),
    {
        BuiltinsHandler { builtins: Scope::new() }
    }

    /// Registers the callables that every host provides: `print`, which
    /// takes one value, shows it, and returns nothing.
    pub fn register_builtins(&mut self)
        ensures
            final(self).builtins@ == with_defaults(old(self).builtins@),
    {
        self.builtins.insert(
            String::from_str("print"),
            Value::BuiltinFunction(String::from_str("print")),
        );
    }
}

} // verus!
