//! The OpenRPC method catalog used for schema validation and capability
//! resolution: one entry per method name (lowercase-module form), merged
//! last-writer-wins from many contributions.

use vstd::prelude::*;
use crate::json_values::{json_array_kinds, parse_json_array_kinds, JsonKind};
use crate::rpc::RpcRequest;
use crate::text::str_eq;

verus! {

/// One method of the catalog: its name, the JSON type its second parameter
/// must have (when the schema constrains it), and the capabilities the call
/// needs.
#[derive(Debug)]
pub struct MethodSchema {
    pub name: String,
    pub params_schema: Option<JsonKind>,
    pub caps: Vec<String>,
}

/// The catalog plus the major API version its schemas belong to. Names are
/// unique.
#[derive(Debug)]
pub struct OpenRpcState {
    pub major_version: u32,
    pub methods: Vec<MethodSchema>,
}

/// Whether some entry of `s` is named `name`.
pub open spec fn has_method_in(s: Seq<MethodSchema>, name: Seq<char>) -> bool {
    exists|i: int| 0 <= i < s.len() && (#[trigger] s[i]).name@ == name
}

/// The last entry of `s` named `name`.
pub open spec fn last_with_name(s: Seq<MethodSchema>, name: Seq<char>) -> MethodSchema
    decreases s.len(),
{
    if s.len() == 0 {
        arbitrary()
    } else if s.last().name@ == name {
        s.last()
    } else {
        last_with_name(s.drop_last(), name)
    }
}

impl OpenRpcState {
    /// Method names are unique.
    pub open spec fn wf(self) -> bool {
        forall|i: int, j: int|
            0 <= i < j < self.methods@.len() ==> (#[trigger] self.methods@[i]).name@ != (
            #[trigger] self.methods@[j]).name@
    }

    /// Whether the catalog holds the method.
    pub open spec fn spec_has_method(self, name: Seq<char>) -> bool {
        has_method_in(self.methods@, name)
    }

    /// The index of the method in the catalog.
    pub open spec fn method_idx(self, name: Seq<char>) -> int {
        choose|i: int| 0 <= i < self.methods@.len() && (#[trigger] self.methods@[i]).name@ == name
    }

    /// The catalog's entry for the method.
    pub open spec fn spec_method(self, name: Seq<char>) -> MethodSchema {
        self.methods@[self.method_idx(name)]
    }

    /// An empty catalog.
    pub fn new(major_version: u32) -> (r: Self)
        ensures
            r.wf(),
            r.methods@.len() == 0,
            r.major_version == major_version,
    {
        OpenRpcState { major_version, methods: Vec::new() }
    }

    fn find_method(&self, name: &str) -> (r: Option<usize>)
        requires
            self.wf(),
        ensures
            match r {
                Some(i) => i < self.methods@.len() && self.methods@[i as int].name@ == name@
                    && self.spec_has_method(name@) && self.method_idx(name@) == i,
                None => !self.spec_has_method(name@),
            },
    {
        let n = self.methods.len();
        let mut i: usize = 0;
        while i < n
            invariant
                self.wf(),
                n == self.methods@.len(),
                i <= n,
                forall|k: int| 0 <= k < i ==> (#[trigger] self.methods@[k]).name@ != name@,
            decreases n - i,
        {
            if str_eq(self.methods[i].name.as_str(), name) {
                proof {
                    let ii = i as int;
                    let j = self.method_idx(name@);
                    if j != ii {
                        assert(self.methods@[j].name@ != self.methods@[ii].name@);
                    }
                }
                return Some(i);
            }
            i = i + 1;
        }
        None
    }

    /// The catalog entry for the method, when one is registered.
    pub fn get_method_by_name(&self, name: &str) -> (r: Option<&MethodSchema>)
        requires
            self.wf(),
        ensures
            match r {
                Some(m) => self.spec_has_method(name@) && *m == self.spec_method(name@),
                None => !self.spec_has_method(name@),
            },
    {
        match self.find_method(name) {
            Some(i) => Some(&self.methods[i]),
            None => None,
        }
    }

    /// Registers the entry, replacing a same-named one.
    fn update_method(&mut self, entry: MethodSchema)
        requires
            old(self).wf(),
        ensures
            final(self).wf(),
            final(self).major_version == old(self).major_version,
            final(self).spec_has_method(entry.name@),
            final(self).spec_method(entry.name@) == entry,
            forall|name: Seq<char>|
                name != entry.name@ ==> final(self).spec_has_method(name) == old(
                    self,
                ).spec_has_method(name),
            forall|name: Seq<char>|
                name != entry.name@ && old(self).spec_has_method(name) ==> final(self).spec_method(
                    name,
                ) == old(self).spec_method(name),
    {
        let found = self.find_method(entry.name.as_str());
        match found {
            Some(i) => {
                self.methods[i] = entry;
                proof {
                    self.lemma_one_changed(*old(self), i as int);
                }
            },
            None => {
                self.methods.push(entry);
                proof {
                    self.lemma_one_changed(*old(self), old(self).methods@.len() as int);
                }
            },
        }
    }

    /// After replacing or appending the entry at `i` (same name), lookups
    /// of that name resolve to it and every other name is as before.
    proof fn lemma_one_changed(&self, pre: OpenRpcState, i: int)
        requires
            pre.wf(),
            0 <= i <= pre.methods@.len(),
            self.methods@.len() == if i < pre.methods@.len() {
                pre.methods@.len() as int
            } else {
                pre.methods@.len() + 1 as int
            },
            forall|j: int|
                0 <= j < pre.methods@.len() && j != i ==> self.methods@[j] == pre.methods@[j],
            i < pre.methods@.len() ==> self.methods@[i].name@ == pre.methods@[i].name@,
            i == pre.methods@.len() ==> !pre.spec_has_method(self.methods@[i].name@),
        ensures
            self.wf(),
            self.spec_has_method(self.methods@[i].name@),
            self.method_idx(self.methods@[i].name@) == i,
            self.spec_method(self.methods@[i].name@) == self.methods@[i],
            forall|name: Seq<char>|
                name != self.methods@[i].name@ ==> self.spec_has_method(name)
                    == pre.spec_has_method(name),
            forall|name: Seq<char>|
                name != self.methods@[i].name@ && pre.spec_has_method(name) ==> self.spec_method(
                    name,
                ) == pre.spec_method(name),
    {
        let key = self.methods@[i].name@;
        assert forall|a: int, b: int| 0 <= a < b < self.methods@.len() implies (
        #[trigger] self.methods@[a]).name@ != (#[trigger] self.methods@[b]).name@ by {
            if a != i && b != i {
                assert(self.methods@[a] == pre.methods@[a]);
                assert(self.methods@[b] == pre.methods@[b]);
            } else if a == i && i < pre.methods@.len() {
                assert(self.methods@[b] == pre.methods@[b]);
            } else if b == i && i < pre.methods@.len() {
                assert(self.methods@[a] == pre.methods@[a]);
            } else if b == i {
                assert(self.methods@[a] == pre.methods@[a]);
                assert(pre.methods@[a].name@ != key);
            }
        }
        let j = self.method_idx(key);
        if j != i {
            assert(self.methods@[j].name@ != self.methods@[i].name@);
        }
        assert forall|name: Seq<char>| name != key implies self.spec_has_method(name)
            == pre.spec_has_method(name) by {
            if self.spec_has_method(name) {
                let a = self.method_idx(name);
                assert(a != i);
                assert(self.methods@[a] == pre.methods@[a]);
            }
            if pre.spec_has_method(name) {
                let a = pre.method_idx(name);
                assert(a != i);
                assert(self.methods@[a] == pre.methods@[a]);
            }
        }
        assert forall|name: Seq<char>| name != key && pre.spec_has_method(name) implies
            self.spec_method(name) == pre.spec_method(name) by {
            let a = self.method_idx(name);
            let b = pre.method_idx(name);
            assert(a != i);
            assert(self.methods@[a] == pre.methods@[a]);
            if a != b {
                assert(pre.methods@[a].name@ != pre.methods@[b].name@);
            }
        }
    }

    /// Feeds one OpenRPC contribution into the catalog. Within the
    /// contribution and against the existing catalog, the last writer of a
    /// name wins; every other name keeps its entry.
    pub fn add_open_rpc(&mut self, contribution: Vec<MethodSchema>)
        requires
            old(self).wf(),
        ensures
            final(self).wf(),
            final(self).major_version == old(self).major_version,
            forall|name: Seq<char>|
                final(self).spec_has_method(name) == (old(self).spec_has_method(name)
                    || has_method_in(contribution@, name)),
            forall|name: Seq<char>|
                has_method_in(contribution@, name) ==> final(self).spec_method(name)
                    == last_with_name(contribution@, name),
            forall|name: Seq<char>|
                !has_method_in(contribution@, name) && old(self).spec_has_method(name) ==> final(self).spec_method(name) == old(self).spec_method(name),
    {
        let n = contribution.len();
        let ghost orig = contribution@;
        let mut contribution = contribution;
        let mut i: usize = 0;
        while i < n
            invariant
                n == orig.len(),
                contribution@ == orig.skip(i as int),
                i <= n,
                self.wf(),
                self.major_version == old(self).major_version,
                forall|name: Seq<char>|
                    self.spec_has_method(name) == (old(self).spec_has_method(name)
                        || has_method_in(orig.take(i as int), name)),
                forall|name: Seq<char>|
                    has_method_in(orig.take(i as int), name) ==> self.spec_method(name)
                        == last_with_name(orig.take(i as int), name),
                forall|name: Seq<char>|
                    !has_method_in(orig.take(i as int), name) && old(self).spec_has_method(name)
                        ==> self.spec_method(name) == old(self).spec_method(name),
            decreases n - i,
        {
            let entry = contribution.remove(0);
            proof {
                assert(entry == orig[i as int]);
                assert(contribution@ =~= orig.skip(i + 1 as int));
                assert(orig.take(i + 1 as int).drop_last() =~= orig.take(i as int));
                assert(orig.take(i + 1 as int).last() == orig[i as int]);
            }
            self.update_method(entry);
            i = i + 1;
        }
        proof {
            assert(orig.take(n as int) =~= orig);
        }
    }
}

/// Whether the request's parameters satisfy the catalog: a method absent
/// from the catalog passes (legacy APIs validate downstream), unparseable
/// or sub-two-element parameter arrays pass (element 0 is the caller
/// context), and otherwise element 1 must have the schema's JSON type.
pub open spec fn spec_params_valid(o: OpenRpcState, method: Seq<char>, params: Seq<char>) -> bool {
    !o.spec_has_method(method) || (match json_array_kinds(params) {
        None => true,
        Some(ks) => ks.len() <= 1 || (match o.spec_method(method).params_schema {
            None => true,
            Some(k) => ks[1] == k
        }),
    })
}

/// Validates the request's parameters against the catalog, as
/// `spec_params_valid` states; the error text names the method.
pub fn validate_request(open_rpc_state: &OpenRpcState, request: &RpcRequest) -> (r: Result<
    (),
    String,
>)
    requires
        open_rpc_state.wf(),
    ensures
        r is Ok <==> spec_params_valid(*open_rpc_state, request.method@, request.params_json@),
        r matches Err(m) ==> m@ == "invalid parameters for "@ + request.method@,
{
    match open_rpc_state.get_method_by_name(request.method.as_str()) {
        None => Ok(()),
        Some(entry) => {
            let expected = entry.params_schema;
            match parse_json_array_kinds(request.params_json.as_str()) {
                None => Ok(()),
                Some(kinds) => {
                    if kinds.len() <= 1 {
                        Ok(())
                    } else {
                        match expected {
                            None => Ok(()),
                            Some(k) => {
                                if kinds[1] == k {
                                    Ok(())
                                } else {
                                    let mut m = String::new();
                                    m.append("invalid parameters for ");
                                    m.append(request.method.as_str());
                                    Err(m)
                                }
                            },
                        }
                    }
                },
            }
        },
    }
}

} // verus!
