//! Small association lists keyed by strings, with unique keys: the spec
//! view and the update lemma shared by the stores built on them.

use vstd::prelude::*;

verus! {

/// Whether the list holds the key.
pub open spec fn kv_has<T>(s: Seq<(String, T)>, key: Seq<char>) -> bool {
    exists|i: int| 0 <= i < s.len() && (#[trigger] s[i]).0@ == key
}

/// The index of the key in the list.
pub open spec fn kv_idx<T>(s: Seq<(String, T)>, key: Seq<char>) -> int {
    choose|i: int| 0 <= i < s.len() && (#[trigger] s[i]).0@ == key
}

/// The value recorded under the key.
pub open spec fn kv_get<T>(s: Seq<(String, T)>, key: Seq<char>) -> T {
    s[kv_idx(s, key)].1
}

/// Keys are unique.
pub open spec fn kv_unique<T>(s: Seq<(String, T)>) -> bool {
    forall|i: int, j: int| 0 <= i < j < s.len() ==> (#[trigger] s[i]).0@ != (#[trigger] s[j]).0@
}

/// After removing index `i` and appending `v` under the same key, lookups
/// of that key yield `v` and every other key is as before; `i` equal to
/// the length is a plain append of a fresh key.
pub proof fn lemma_kv_update<T>(s_pre: Seq<(String, T)>, s_post: Seq<(String, T)>, i: int, v: (String, T))
    requires
        kv_unique(s_pre),
        0 <= i <= s_pre.len(),
        i < s_pre.len() ==> v.0@ == s_pre[i].0@ && s_post == s_pre.remove(i).push(v),
        i == s_pre.len() ==> !kv_has(s_pre, v.0@) && s_post == s_pre.push(v),
    ensures
        kv_unique(s_post),
        kv_has(s_post, v.0@),
        kv_get(s_post, v.0@) == v.1,
        forall|k: Seq<char>| k != v.0@ ==> kv_has(s_post, k) == kv_has(s_pre, k),
        forall|k: Seq<char>| k != v.0@ && kv_has(s_pre, k) ==> kv_get(s_post, k) == kv_get(s_pre, k),
{
    if i < s_pre.len() {
        s_pre.remove_ensures(i);
    }
    let key = v.0@;
    assert(s_post[s_post.len() - 1] == v);
    assert forall|a: int, b: int| 0 <= a < b < s_post.len() implies (#[trigger] s_post[a]).0@ != (
    #[trigger] s_post[b]).0@ by {
        if b < s_post.len() - 1 {
            if i < s_pre.len() {
                let a0: int = if a < i {
                    a
                } else {
                    a + 1
                };
                let b0: int = if b < i {
                    b
                } else {
                    b + 1
                };
                assert(s_post[a] == s_pre[a0]);
                assert(s_post[b] == s_pre[b0]);
            }
        } else {
            if i < s_pre.len() {
                let a0: int = if a < i {
                    a
                } else {
                    a + 1
                };
                assert(s_post[a] == s_pre[a0]);
                assert(s_pre[a0].0@ != s_pre[i].0@);
            } else {
                assert(s_post[a] == s_pre[a]);
            }
        }
    }
    let j = kv_idx(s_post, key);
    if j != s_post.len() - 1 {
        assert(s_post[j].0@ != s_post[s_post.len() - 1].0@);
    }
    assert forall|k: Seq<char>| k != key implies kv_has(s_post, k) == kv_has(s_pre, k) by {
        if kv_has(s_post, k) {
            let a = kv_idx(s_post, k);
            assert(a != s_post.len() - 1);
            if i < s_pre.len() {
                let a0: int = if a < i {
                    a
                } else {
                    a + 1
                };
                assert(s_post[a] == s_pre[a0]);
            } else {
                assert(s_post[a] == s_pre[a]);
            }
        }
        if kv_has(s_pre, k) {
            let a = kv_idx(s_pre, k);
            assert(a != i);
            if i < s_pre.len() {
                let a1: int = if a < i {
                    a
                } else {
                    a - 1
                };
                assert(s_post[a1] == s_pre[a]);
            } else {
                assert(s_post[a] == s_pre[a]);
            }
        }
    }
    assert forall|k: Seq<char>| k != key && kv_has(s_pre, k) implies kv_get(s_post, k) == kv_get(
        s_pre,
        k,
    ) by {
        let a = kv_idx(s_pre, k);
        assert(a != i);
        let a1: int = if i < s_pre.len() && a >= i {
            a - 1
        } else {
            a
        };
        assert(s_post[a1] == s_pre[a]);
        let b = kv_idx(s_post, k);
        if b != a1 {
            assert(s_post[b].0@ != s_post[a1].0@);
        }
    }
}

/// After removing index `i`, its key is gone and every other key is as
/// before.
pub proof fn lemma_kv_remove<T>(s_pre: Seq<(String, T)>, s_post: Seq<(String, T)>, i: int)
    requires
        kv_unique(s_pre),
        0 <= i < s_pre.len(),
        s_post == s_pre.remove(i),
    ensures
        kv_unique(s_post),
        !kv_has(s_post, s_pre[i].0@),
        forall|k: Seq<char>| k != s_pre[i].0@ ==> kv_has(s_post, k) == kv_has(s_pre, k),
        forall|k: Seq<char>|
            k != s_pre[i].0@ && kv_has(s_pre, k) ==> kv_get(s_post, k) == kv_get(s_pre, k),
{
    s_pre.remove_ensures(i);
    assert forall|a: int, b: int| 0 <= a < b < s_post.len() implies (#[trigger] s_post[a]).0@ != (
    #[trigger] s_post[b]).0@ by {
        let a0: int = if a < i {
            a
        } else {
            a + 1
        };
        let b0: int = if b < i {
            b
        } else {
            b + 1
        };
        assert(s_post[a] == s_pre[a0]);
        assert(s_post[b] == s_pre[b0]);
    }
    assert forall|a: int| 0 <= a < s_post.len() implies (#[trigger] s_post[a]).0@ != s_pre[i].0@ by {
        let a0: int = if a < i {
            a
        } else {
            a + 1
        };
        assert(s_post[a] == s_pre[a0]);
        assert(s_pre[a0].0@ != s_pre[i].0@);
    }
    assert forall|k: Seq<char>| k != s_pre[i].0@ implies kv_has(s_post, k) == kv_has(s_pre, k) by {
        if kv_has(s_post, k) {
            let a = kv_idx(s_post, k);
            let a0: int = if a < i {
                a
            } else {
                a + 1
            };
            assert(s_post[a] == s_pre[a0]);
        }
        if kv_has(s_pre, k) {
            let a = kv_idx(s_pre, k);
            assert(a != i);
            let a1: int = if a < i {
                a
            } else {
                a - 1
            };
            assert(s_post[a1] == s_pre[a]);
        }
    }
    assert forall|k: Seq<char>| k != s_pre[i].0@ && kv_has(s_pre, k) implies kv_get(s_post, k)
        == kv_get(s_pre, k) by {
        let a = kv_idx(s_pre, k);
        assert(a != i);
        let a1: int = if a < i {
            a
        } else {
            a - 1
        };
        assert(s_post[a1] == s_pre[a]);
        let b = kv_idx(s_post, k);
        if b != a1 {
            assert(s_post[b].0@ != s_post[a1].0@);
        }
    }
}

/// The index of the key, found by scanning.
pub fn kv_find<T>(v: &Vec<(String, T)>, key: &str) -> (r: Option<usize>)
    requires
        kv_unique(v@),
    ensures
        match r {
            Some(i) => i < v@.len() && v@[i as int].0@ == key@ && kv_has(v@, key@) && kv_idx(
                v@,
                key@,
            ) == i,
            None => !kv_has(v@, key@),
        },
{
    let n = v.len();
    let mut i: usize = 0;
    while i < n
        invariant
            kv_unique(v@),
            n == v@.len(),
            i <= n,
            forall|k: int| 0 <= k < i ==> (#[trigger] v@[k]).0@ != key@,
        decreases n - i,
    {
        if crate::text::str_eq(v[i].0.as_str(), key) {
            proof {
                let ii = i as int;
                let j = kv_idx(v@, key@);
                if j != ii {
                    assert(v@[j].0@ != v@[ii].0@);
                }
            }
            return Some(i);
        }
        i = i + 1;
    }
    None
}

} // verus!
