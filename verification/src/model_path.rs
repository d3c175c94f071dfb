//! The model-path grammar: `publishers/{namespace}/models/{model}`.

use vstd::prelude::*;

verus! {

broadcast use vstd::string::group_string_axioms;

/// The characters that open a publisher-scoped model path.
pub open spec fn publishers_prefix() -> Seq<char> {
    seq!['p', 'u', 'b', 'l', 'i', 's', 'h', 'e', 'r', 's', '/']
}

/// The separator between the namespace and the model name: `/models/`.
pub open spec fn models_separator() -> Seq<char> {
    seq!['/', 'm', 'o', 'd', 'e', 'l', 's', '/']
}

/// `pat` occurs in `s` starting at index `i`.
pub open spec fn occurs_at(s: Seq<char>, pat: Seq<char>, i: int) -> bool {
    &&& 0 <= i
    &&& i + pat.len() <= s.len()
    &&& s.subrange(i, i + pat.len()) == pat
}

/// `i` is the first index at which `pat` occurs in `s`.
pub open spec fn first_occurrence(s: Seq<char>, pat: Seq<char>, i: int) -> bool {
    &&& occurs_at(s, pat, i)
    &&& forall|j: int| 0 <= j < i ==> !occurs_at(s, pat, j)
}

/// `s` with `prefix` removed, if `s` starts with `prefix`.
pub open spec fn without_prefix(s: Seq<char>, prefix: Seq<char>) -> Option<Seq<char>> {
    if prefix.len() <= s.len() && s.take(prefix.len() as int) == prefix {
        Some(s.skip(prefix.len() as int))
    } else {
        None
    }
}

/// The parts of `s` before and after the first occurrence of `pat`.
pub open spec fn split_at_first(s: Seq<char>, pat: Seq<char>) -> Option<(Seq<char>, Seq<char>)> {
    if exists|i: int| first_occurrence(s, pat, i) {
        let i = choose|i: int| first_occurrence(s, pat, i);
        Some((s.take(i), s.skip(i + pat.len())))
    } else {
        None
    }
}

/// The model name addressed by a publisher-scoped path: what follows the
/// first `/models/` after the `publishers/` prefix, provided it is not empty.
pub open spec fn publisher_suffix(model: Seq<char>) -> Option<Seq<char>> {
    match without_prefix(model, publishers_prefix()) {
        None => None,
        Some(rest) => match split_at_first(rest, models_separator()) {
            None => None,
            Some((_namespace, suffix)) => if suffix.len() == 0 {
                None
            } else {
                Some(suffix)
            },
        },
    }
}

/// The characters of `s`, one element per `char`.
fn chars_of(s: &str) -> (v: Vec<char>)
    ensures
        v@ == s@,
{
    let mut v: Vec<char> = Vec::new();
    for c in it: s.chars()
        invariant
            it.seq() == s@,
            v@ == s@.take(it.index()),
    {
        v.push(c);
    }
    v
}


/// The characters of `publishers/`.
fn publishers_prefix_chars() -> (v: Vec<char>)
    ensures
        v@ == publishers_prefix(),
{
    vec!['p', 'u', 'b', 'l', 'i', 's', 'h', 'e', 'r', 's', '/']
}

/// The characters of `/models/`.
fn models_separator_chars() -> (v: Vec<char>)
    ensures
        v@ == models_separator(),
{
    vec!['/', 'm', 'o', 'd', 'e', 'l', 's', '/']
}

/// Whether `pat` occurs in `s` at index `i`.
fn occurs_at_exec(s: &Vec<char>, pat: &Vec<char>, i: usize) -> (b: bool)
    ensures
        b == occurs_at(s@, pat@, i as int),
{
    if i > s.len() || pat.len() > s.len() - i {
        return false;
    }
    let mut k: usize = 0;
    while k < pat.len()
        invariant
            i + pat.len() <= s.len(),
            k <= pat.len(),
            forall|m: int| 0 <= m < k ==> s@[i + m] == pat@[m],
        decreases pat.len() - k,
    {
        if s[i + k] != pat[k] {
            assert(s@.subrange(i as int, i + pat@.len())[k as int] != pat@[k as int]);
            return false;
        }
        k += 1;
    }
    assert(s@.subrange(i as int, i + pat@.len()) =~= pat@);
    true
}

/// Occurrences in a suffix of `s` are occurrences in `s`, shifted by the
/// length of what was dropped.
proof fn lemma_occurs_in_skip(s: Seq<char>, pat: Seq<char>, k: int, j: int)
    requires
        0 <= k <= s.len(),
        0 <= j,
    ensures
        occurs_at(s.skip(k), pat, j) <==> occurs_at(s, pat, j + k),
{
    if j + pat.len() <= s.len() - k {
        assert(s.skip(k).subrange(j, j + pat.len()) =~= s.subrange(j + k, j + k + pat.len()));
    }
}

/// At most one index is the first occurrence.
proof fn lemma_first_occurrence_unique(s: Seq<char>, pat: Seq<char>, i: int, j: int)
    requires
        first_occurrence(s, pat, i),
        first_occurrence(s, pat, j),
    ensures
        i == j,
{
}

/// Strips the `publishers/{namespace}/models/` prefix from a model name.
///
/// Returns the model name that follows the first `/models/` after the
/// `publishers/` prefix, or `None` when the name does not have that shape or
/// nothing follows the separator.
pub fn strip_publisher_prefix(model: &str) -> (r: Option<&str>)
    ensures
        match r {
            Some(suffix) => publisher_suffix(model@) == Some(suffix@),
            None => publisher_suffix(model@) is None,
        },
{
    let cs = chars_of(model);
    let prefix = publishers_prefix_chars();
    let sep = models_separator_chars();
    let ghost s = model@;
    let ghost rest = s.skip(11);
    if !occurs_at_exec(&cs, &prefix, 0) {
        proof {
            if prefix@.len() <= s.len() {
                assert(s.subrange(0, 11) =~= s.take(11));
            }
        }
        return None;
    }
    assert(s.take(11) =~= s.subrange(0, 11));
    assert(without_prefix(s, publishers_prefix()) == Some(rest));
    let n = cs.len();
    let mut i: usize = 11;
    while i < n && n - i >= 8
        invariant
            s == model@,
            cs@ == s,
            without_prefix(s, publishers_prefix()) == Some(rest),
            sep@ == models_separator(),
            n == s.len(),
            11 <= i <= n,
            rest == s.skip(11),
            forall|j: int| 0 <= j < i - 11 ==> !occurs_at(rest, models_separator(), j),
        decreases n - i,
    {
        let found = occurs_at_exec(&cs, &sep, i);
        proof {
            lemma_occurs_in_skip(s, models_separator(), 11, i - 11);
        }
        if found {
            let start = i + 8;
            proof {
                let j = (i - 11) as int;
                assert(occurs_at(s, models_separator(), i as int));
                assert(first_occurrence(rest, models_separator(), j));
                let c = choose|c: int| first_occurrence(rest, models_separator(), c);
                lemma_first_occurrence_unique(rest, models_separator(), c, j);
                assert(rest.skip(j + 8) =~= s.skip(start as int));
            }
            if start == n {
                assert(s.skip(start as int).len() == 0);
                return None;
            }
            let suffix = model.substring_char(start, n);
            proof {
                assert(suffix@ =~= s.skip(start as int));
            }
            return Some(suffix);
        }
        i += 1;
    }
    proof {
        assert forall|j: int| !first_occurrence(rest, models_separator(), j) by {
            if first_occurrence(rest, models_separator(), j) {
                assert(j < i - 11);
            }
        }
    }
    None
}

/// A name that does not begin with `publishers/` is never stripped.
pub proof fn lemma_non_publisher_name_kept(model: Seq<char>)
    requires
        !(publishers_prefix().len() <= model.len() && model.take(11) == publishers_prefix()),
    ensures
        publisher_suffix(model) is None,
{
}

/// A full publisher-scoped path: `publishers/{namespace}/models/{name}`.
pub open spec fn publisher_path(namespace: Seq<char>, name: Seq<char>) -> Seq<char> {
    publishers_prefix() + namespace + models_separator() + name
}

/// Whatever is stripped is a non-empty model name that, put back behind
/// `publishers/{namespace}/models/` for some namespace, gives the input again;
/// and `/models/` occurs nowhere before the one that closes that namespace
/// (the name follows the first separator).
pub proof fn lemma_stripped_name_reassembles(model: Seq<char>)
    ensures
        publisher_suffix(model) matches Some(name) ==> {
            &&& name.len() > 0
            &&& exists|namespace: Seq<char>|
                {
                    &&& model == publisher_path(namespace, name)
                    &&& forall|j: int|
                        0 <= j < namespace.len() ==> !occurs_at(
                            namespace + models_separator() + name,
                            models_separator(),
                            j,
                        )
                }
        },
{
    if let Some(name) = publisher_suffix(model) {
        let rest = model.skip(11);
        let i = choose|i: int| first_occurrence(rest, models_separator(), i);
        let namespace = rest.take(i);
        assert(model.take(11) == publishers_prefix());
        assert(rest.subrange(i, i + 8) == models_separator());
        assert(rest =~= namespace + models_separator() + name);
        assert(model =~= publisher_path(namespace, name));
    }
}

/// Building a publisher path and stripping it gives the model name back, for
/// every non-empty name and every namespace without a `/` (the empty one
/// included).
pub proof fn lemma_publisher_path_round_trip(namespace: Seq<char>, name: Seq<char>)
    requires
        name.len() > 0,
        !namespace.contains('/'),
    ensures
        publisher_suffix(publisher_path(namespace, name)) == Some(name),
{
    let path = publisher_path(namespace, name);
    let l = namespace.len() as int;
    let sep = models_separator();
    let rest = namespace + sep + name;
    assert(path =~= publishers_prefix() + rest);
    assert(path.take(11) =~= publishers_prefix());
    assert(path.skip(11) =~= rest);
    assert(rest.subrange(l, l + 8) =~= sep);
    assert forall|j: int| 0 <= j < l implies !occurs_at(rest, sep, j) by {
        if occurs_at(rest, sep, j) {
            assert(rest.subrange(j, j + 8)[0] == rest[j]);
            assert(sep[0] == '/');
            assert(rest[j] == namespace[j]);
            assert(namespace.contains('/'));
        }
    }
    assert(first_occurrence(rest, sep, l));
    let c = choose|c: int| first_occurrence(rest, sep, c);
    lemma_first_occurrence_unique(rest, sep, c, l);
    assert(rest.skip(l + 8) =~= name);
}

} // verus!
