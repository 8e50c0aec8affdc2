//! Small string-building helpers shared across the crate: appending single
//! characters, joining capability lists, and the lowercase-module
//! normalization applied to every method name before dispatch.

use vstd::prelude::*;

verus! {

/// Relies on std's `String::push`: appends exactly one character at the end.
pub assume_specification[ String::push ](s: &mut String, c: char)
    ensures
        final(s)@ == old(s)@ + seq![c],
;

/// The comma-separated join of a list of strings, as used in capability
/// deny messages ("a:b,c:d").
pub open spec fn spec_join_comma(items: Seq<String>) -> Seq<char>
    decreases items.len(),
{
    if items.len() == 0 {
        Seq::<char>::empty()
    } else if items.len() == 1 {
        items[0]@
    } else {
        spec_join_comma(items.drop_last()) + seq![','] + items.last()@
    }
}

/// Joins the strings with `,` between them, with no trailing separator.
pub fn join_comma(items: &Vec<String>) -> (r: String)
    ensures
        r@ == spec_join_comma(items@),
{
    let mut r = String::new();
    let n = items.len();
    let mut i: usize = 0;
    while i < n
        invariant
            n == items@.len(),
            i <= n,
            r@ == spec_join_comma(items@.take(i as int)),
        decreases n - i,
    {
        if i > 0 {
            r.push(',');
        }
        r.append(items[i].as_str());
        proof {
            assert(items@.take(i + 1 as int).drop_last() =~= items@.take(i as int));
            assert(items@.take(i + 1 as int).last() == items@[i as int]);
        }
        i = i + 1;
    }
    proof {
        assert(items@.take(n as int) =~= items@);
    }
    r
}

/// ASCII lowercasing of a single character; other characters are unchanged.
pub open spec fn spec_lower_char(c: char) -> char {
    if 'A' as u32 <= c as u32 && c as u32 <= 'Z' as u32 {
        ((c as u32) + 32) as char
    } else {
        c
    }
}

/// The lowercase-module form of a method name: every character of the module
/// segment (the portion before the final `.`) is ASCII-lowercased; the final
/// segment is kept as written. A name without a `.` is left unchanged.
pub open spec fn spec_lowercase_module(name: Seq<char>) -> Seq<char> {
    if exists|i: int| 0 <= i < name.len() && name[i] == '.' {
        let d = last_dot(name);
        name.take(d).map_values(|c: char| spec_lower_char(c)) + name.skip(d)
    } else {
        name
    }
}

/// The index of the final `.` in the sequence.
pub open spec fn last_dot(name: Seq<char>) -> int
    decreases name.len(),
{
    if name.len() == 0 {
        0
    } else if name.last() == '.' {
        name.len() - 1
    } else {
        last_dot(name.drop_last())
    }
}

/// A name is in lowercase-module form when no character of its module segment
/// is an ASCII uppercase letter.
pub open spec fn is_lowercase_module(name: Seq<char>) -> bool {
    spec_lowercase_module(name) == name
}

/// Character-for-character string comparison.
pub fn str_eq(a: &str, b: &str) -> (r: bool)
    ensures
        r == (a@ == b@),
{
    let na = a.unicode_len();
    let nb = b.unicode_len();
    if na != nb {
        proof {
            assert(a@ != b@);
        }
        return false;
    }
    let mut i: usize = 0;
    while i < na
        invariant
            na == a@.len(),
            na == b@.len(),
            i <= na,
            forall|k: int| 0 <= k < i ==> a@[k] == b@[k],
        decreases na - i,
    {
        if a.get_char(i) != b.get_char(i) {
            return false;
        }
        i = i + 1;
    }
    proof {
        assert(a@ =~= b@);
    }
    true
}

/// Whether some string of the sequence reads as `x`.
pub open spec fn contains_str(s: Seq<String>, x: Seq<char>) -> bool {
    exists|i: int| 0 <= i < s.len() && s[i]@ == x
}

/// Whether the vector holds a string reading as `x`.
pub fn vec_contains_str(v: &Vec<String>, x: &str) -> (r: bool)
    ensures
        r == contains_str(v@, x@),
{
    let n = v.len();
    let mut i: usize = 0;
    while i < n
        invariant
            n == v@.len(),
            i <= n,
            forall|k: int| 0 <= k < i ==> v@[k]@ != x@,
        decreases n - i,
    {
        if str_eq(v[i].as_str(), x) {
            return true;
        }
        i = i + 1;
    }
    false
}

/// Whether `s` begins with `prefix`.
pub fn str_starts_with(s: &str, prefix: &str) -> (r: bool)
    ensures
        r == prefix@.is_prefix_of(s@),
{
    let np = prefix.unicode_len();
    let ns = s.unicode_len();
    if np > ns {
        return false;
    }
    let mut i: usize = 0;
    while i < np
        invariant
            np == prefix@.len(),
            ns == s@.len(),
            np <= ns,
            i <= np,
            forall|k: int| 0 <= k < i ==> prefix@[k] == s@[k],
        decreases np - i,
    {
        if prefix.get_char(i) != s.get_char(i) {
            proof {
                assert(!prefix@.is_prefix_of(s@));
            }
            return false;
        }
        i = i + 1;
    }
    proof {
        assert(prefix@ =~= s@.subrange(0, np as int));
    }
    true
}

/// ASCII-lowercases one character.
pub fn lower_char(c: char) -> (r: char)
    ensures
        r == spec_lower_char(c),
{
    let u = c as u32;
    if 65 <= u && u <= 90 {
        let b = c as u8;
        (b + 32) as char
    } else {
        c
    }
}

proof fn lemma_last_dot_props(s: Seq<char>)
    requires
        exists|i: int| 0 <= i < s.len() && s[i] == '.',
    ensures
        0 <= last_dot(s) < s.len(),
        s[last_dot(s)] == '.',
        forall|j: int| last_dot(s) < j < s.len() ==> s[j] != '.',
    decreases s.len(),
{
    if s.last() == '.' {
    } else {
        let i = choose|i: int| 0 <= i < s.len() && s[i] == '.';
        assert(s.drop_last()[i] == s[i]);
        lemma_last_dot_props(s.drop_last());
        assert(s[last_dot(s)] == s.drop_last()[last_dot(s.drop_last())]);
        assert forall|j: int| last_dot(s) < j < s.len() implies s[j] != '.' by {
            if j < s.len() - 1 {
                assert(s[j] == s.drop_last()[j]);
            }
        }
    }
}

proof fn lemma_last_dot_unique(s: Seq<char>, d: int)
    requires
        0 <= d < s.len(),
        s[d] == '.',
        forall|j: int| d < j < s.len() ==> s[j] != '.',
    ensures
        last_dot(s) == d,
    decreases s.len(),
{
    if s.last() == '.' {
    } else {
        assert(s.drop_last()[d] == s[d]);
        lemma_last_dot_unique(s.drop_last(), d);
    }
}

/// Rewrites a method name into lowercase-module form: the characters before
/// the final `.` are ASCII-lowercased, the rest is kept. A name without a
/// `.` is returned unchanged.
pub fn name_with_lowercase_module(name: &str) -> (r: String)
    ensures
        r@ == spec_lowercase_module(name@),
{
    let n = name.unicode_len();
    let mut has_dot = false;
    let mut d: usize = 0;
    let mut i: usize = 0;
    while i < n
        invariant
            n == name@.len(),
            i <= n,
            has_dot <==> exists|k: int| 0 <= k < i && name@[k] == '.',
            has_dot ==> 0 <= d < i && name@[d as int] == '.' && forall|j: int|
                d < j < i ==> name@[j] != '.',
        decreases n - i,
    {
        if name.get_char(i) == '.' {
            has_dot = true;
            d = i;
        }
        i = i + 1;
    }
    let bound = if has_dot {
        d
    } else {
        0
    };
    let mut r = String::new();
    let mut i: usize = 0;
    while i < bound
        invariant
            n == name@.len(),
            bound <= n,
            i <= bound,
            r@ == name@.take(i as int).map_values(|c: char| spec_lower_char(c)),
        decreases bound - i,
    {
        let c = lower_char(name.get_char(i));
        r.push(c);
        proof {
            assert(name@.take(i + 1 as int).map_values(|c: char| spec_lower_char(c)) =~= name@.take(
                i as int,
            ).map_values(|c: char| spec_lower_char(c)) + seq![
                spec_lower_char(name@[i as int]),
            ]);
        }
        i = i + 1;
    }
    while i < n
        invariant
            n == name@.len(),
            bound <= i <= n,
            r@ == name@.take(bound as int).map_values(|c: char| spec_lower_char(c))
                + name@.subrange(bound as int, i as int),
        decreases n - i,
    {
        let c = name.get_char(i);
        r.push(c);
        proof {
            assert(name@.subrange(bound as int, i + 1 as int) =~= name@.subrange(
                bound as int,
                i as int,
            ) + seq![name@[i as int]]);
        }
        i = i + 1;
    }
    proof {
        if has_dot {
            lemma_last_dot_unique(name@, d as int);
            assert(name@.skip(d as int) =~= name@.subrange(d as int, n as int));
        } else {
            assert(r@ =~= name@);
        }
    }
    r
}

/// The normalization lands in lowercase-module form, and normalizing an
/// already-normalized name changes nothing: dispatch and telemetry, which
/// both use the normalized name, therefore agree on it.
pub proof fn lemma_lowercase_module_idempotent(name: Seq<char>)
    ensures
        is_lowercase_module(spec_lowercase_module(name)),
{
    if exists|i: int| 0 <= i < name.len() && name[i] == '.' {
        let d = last_dot(name);
        lemma_last_dot_props(name);
        let m = spec_lowercase_module(name);
        assert(m.len() == name.len());
        assert(m[d] == '.');
        assert forall|j: int| d < j < m.len() implies m[j] != '.' by {
            assert(m[j] == name[j]);
        }
        assert(exists|i: int| 0 <= i < m.len() && m[i] == '.');
        lemma_last_dot_unique(m, d);
        assert forall|k: int| 0 <= k < d implies spec_lower_char(m[k]) == m[k] by {
            assert(m[k] == spec_lower_char(name[k]));
        }
        assert(spec_lowercase_module(m) =~= m);
    }
}

} // verus!
