//! The dispatch table of callable RPC methods. The table itself is
//! jsonrpsee's `Methods` collection; the gateway only ever creates tables,
//! merges them, and asks which names they hold, so those are the operations
//! trusted here, with the table's name set as their model.

use vstd::prelude::*;
use jsonrpsee::Methods;

verus! {

#[verifier::external_type_specification]
#[verifier::external_body]
pub struct ExMethods(Methods);

/// The set of method names registered in the table.
pub uninterp spec fn methods_names(m: Methods) -> Set<Seq<char>>;

/// Relies on jsonrpsee's Methods::new: the fresh table holds no methods.
#[verifier::external_body]
pub(crate) fn methods_new() -> (r: Methods)
    ensures
        methods_names(r) == Set::<Seq<char>>::empty(),
{
    Methods::new()
}

/// Relies on jsonrpsee's Methods::merge: it verifies every name of `other`
/// against the table first; on any collision it inserts nothing and
/// errors, otherwise it moves all of `other`'s methods in.
#[verifier::external_body]
pub(crate) fn methods_merge(m: &mut Methods, other: Methods) -> (r: bool)
    ensures
        r == methods_names(*old(m)).disjoint(methods_names(other)),
        r ==> methods_names(*final(m)) == methods_names(*old(m)).union(methods_names(other)),
        !r ==> methods_names(*final(m)) == methods_names(*old(m)),
{
    m.merge(other).is_ok()
}

/// Relies on jsonrpsee's Methods::method: a lookup of the name in the
/// table.
#[verifier::external_body]
pub(crate) fn methods_contains(m: &Methods, name: &str) -> (r: bool)
    ensures
        r == methods_names(*m).contains(name@),
{
    m.method(name).is_some()
}

/// The router's dispatch table, replaced wholesale when the method set
/// changes.
#[derive(Debug)]
pub struct RouterState {
    pub methods: Methods,
}

impl RouterState {
    /// A router with no callable methods.
    pub fn new() -> (r: Self)
        ensures
            methods_names(r.methods) == Set::<Seq<char>>::empty(),
    {
        RouterState { methods: methods_new() }
    }

    /// Atomically replaces the dispatch table.
    pub fn update_methods(&mut self, methods: Methods)
        ensures
            methods_names(final(self).methods) == methods_names(methods),
    {
        self.methods = methods;
    }

    /// Whether the method is callable.
    pub fn has_method(&self, name: &str) -> (r: bool)
        ensures
            r == methods_names(self.methods).contains(name@),
    {
        methods_contains(&self.methods, name)
    }
}

} // verus!
