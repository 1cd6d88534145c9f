//! Header handling: the sorted exposed-header map returned to callers,
//! allowlist-driven header exposure, and lookups in upstream headers.
//!
//! Upstream response headers reach the library as `(name, value)` string
//! pairs in the order the HTTP layer holds them; names are matched ASCII
//! case-insensitively, as the HTTP layer does.

use crate::text::{
    ascii_lower_seq, compare_str, lemma_ascii_lower_idempotent, eq_ignore_ascii_case, eq_ignore_ascii_case_spec,
    lemma_str_lt_transitive, lemma_str_lt_trichotomy, str_lt, to_ascii_lowercase, KeyOrder,
};
use vstd::prelude::*;
use vstd::string::StringExecFns;

verus! {

// ---------------------------------------------------------------------
// Pair lists and the maps they denote
// ---------------------------------------------------------------------

/// The string views of a list of `(name, value)` pairs.
pub open spec fn pairs_view(s: Seq<(String, String)>) -> Seq<(Seq<char>, Seq<char>)> {
    s.map_values(|p: (String, String)| (p.0@, p.1@))
}

/// The map that a pair list denotes; a later pair wins over an earlier one
/// with the same key.
pub open spec fn pairs_map(s: Seq<(Seq<char>, Seq<char>)>) -> Map<Seq<char>, Seq<char>>
    decreases s.len(),
{
    if s.len() == 0 {
        Map::empty()
    } else {
        pairs_map(s.drop_last()).insert(s.last().0, s.last().1)
    }
}

/// No key occurs twice.
pub open spec fn keys_unique(s: Seq<(Seq<char>, Seq<char>)>) -> bool {
    forall|i: int, j: int| 0 <= i < s.len() && 0 <= j < s.len() && i != j ==> s[i].0 != s[j].0
}

/// Keys are strictly increasing in the order of `String`'s `Ord`.
pub open spec fn keys_sorted(s: Seq<(Seq<char>, Seq<char>)>) -> bool {
    forall|i: int, j: int| 0 <= i < j < s.len() ==> str_lt(#[trigger] s[i].0, #[trigger] s[j].0)
}

proof fn lemma_sorted_unique(s: Seq<(Seq<char>, Seq<char>)>)
    requires
        keys_sorted(s),
    ensures
        keys_unique(s),
{
    assert forall|i: int, j: int| 0 <= i < s.len() && 0 <= j < s.len() && i != j implies s[i].0
        != s[j].0 by {
        lemma_str_lt_trichotomy(s[i].0, s[j].0);
    }
}

proof fn lemma_pairs_map_dom(s: Seq<(Seq<char>, Seq<char>)>, k: Seq<char>)
    ensures
        pairs_map(s).contains_key(k) <==> exists|i: int| 0 <= i < s.len() && s[i].0 == k,
    decreases s.len(),
{
    if s.len() > 0 {
        lemma_pairs_map_dom(s.drop_last(), k);
        if pairs_map(s).contains_key(k) && k != s.last().0 {
            let i = choose|i: int| 0 <= i < s.drop_last().len() && s.drop_last()[i].0 == k;
            assert(s[i].0 == k);
        }
        if exists|i: int| 0 <= i < s.len() && s[i].0 == k {
            let i = choose|i: int| 0 <= i < s.len() && s[i].0 == k;
            if i < s.len() - 1 {
                assert(s.drop_last()[i].0 == k);
            }
        }
    }
}

proof fn lemma_pairs_map_value(s: Seq<(Seq<char>, Seq<char>)>, i: int)
    requires
        keys_unique(s),
        0 <= i < s.len(),
    ensures
        pairs_map(s).contains_key(s[i].0),
        pairs_map(s)[s[i].0] == s[i].1,
    decreases s.len(),
{
    if i < s.len() - 1 {
        assert(s.drop_last()[i] == s[i]);
        lemma_pairs_map_value(s.drop_last(), i);
    }
}

/// Two pair lists with unique keys denote the same map when they hold the
/// same pairs, whatever their order.
proof fn lemma_pairs_map_ext(s: Seq<(Seq<char>, Seq<char>)>, m: Map<Seq<char>, Seq<char>>)
    requires
        keys_unique(s),
        forall|i: int| 0 <= i < s.len() ==> m.contains_key(s[i].0) && m[s[i].0] == s[i].1,
        forall|k: Seq<char>| m.contains_key(k) ==> exists|i: int| 0 <= i < s.len() && s[i].0 == k,
    ensures
        pairs_map(s) == m,
{
    assert forall|k: Seq<char>| #[trigger] pairs_map(s).contains_key(k) <==> m.contains_key(k) by {
        lemma_pairs_map_dom(s, k);
    }
    assert forall|k: Seq<char>| #[trigger] pairs_map(s).contains_key(k) implies pairs_map(s)[k]
        == m[k] by {
        lemma_pairs_map_dom(s, k);
        let i = choose|i: int| 0 <= i < s.len() && s[i].0 == k;
        lemma_pairs_map_value(s, i);
    }
    assert(pairs_map(s) =~= m);
}

// ---------------------------------------------------------------------
// ExposedHeaders: a string map kept in key order
// ---------------------------------------------------------------------

/// Exposed response headers: a map from header name to value whose entries
/// are kept in the key order of `String`'s `Ord`, each key once.
#[derive(Debug, PartialEq, Eq)]
pub struct ExposedHeaders {
    entries: Vec<(String, String)>,
}

impl View for ExposedHeaders {
    type V = Map<Seq<char>, Seq<char>>;

    closed spec fn view(&self) -> Map<Seq<char>, Seq<char>> {
        pairs_map(pairs_view(self.entries@))
    }
}

impl ExposedHeaders {
    /// The entries in key order.
    pub closed spec fn entries_view(&self) -> Seq<(Seq<char>, Seq<char>)> {
        pairs_view(self.entries@)
    }

    #[verifier::type_invariant]
    closed spec fn sorted(&self) -> bool {
        keys_sorted(pairs_view(self.entries@))
    }

    /// An empty map.
    pub fn new() -> (r: Self)
        ensures
            r@ == Map::<Seq<char>, Seq<char>>::empty(),
            r.entries_view().len() == 0,
    {
        let r = ExposedHeaders { entries: Vec::new() };
        assert(pairs_view(r.entries@) =~= Seq::empty());
        r
    }

    /// Number of entries.
    pub fn len(&self) -> (r: usize)
        ensures
            r == self.entries_view().len(),
            r == self@.len(),
    {
        proof {
            use_type_invariant(self);
            lemma_sorted_unique(self.entries_view());
            lemma_unique_len(self.entries_view());
        }
        self.entries.len()
    }

    /// The entries, in key order.
    pub fn entries(&self) -> (r: &Vec<(String, String)>)
        ensures
            pairs_view(r@) == self.entries_view(),
            keys_sorted(pairs_view(r@)),
            keys_unique(pairs_view(r@)),
            pairs_map(pairs_view(r@)) == self@,
    {
        proof {
            use_type_invariant(self);
            lemma_sorted_unique(self.entries_view());
        }
        &self.entries
    }

    /// The value stored under `key`.
    pub fn get(&self, key: &str) -> (r: Option<&String>)
        ensures
            match r {
                Some(v) => self@.contains_key(key@) && self@[key@] == v@,
                None => !self@.contains_key(key@),
            },
    {
        proof {
            use_type_invariant(self);
            lemma_sorted_unique(self.entries_view());
            lemma_pairs_map_dom(self.entries_view(), key@);
        }
        let ghost ev = self.entries_view();
        let mut i: usize = 0;
        while i < self.entries.len()
            invariant
                i <= self.entries.len(),
                ev == pairs_view(self.entries@),
                keys_unique(ev),
                forall|j: int| 0 <= j < i ==> ev[j].0 != key@,
            decreases self.entries.len() - i,
        {
            if compare_str(self.entries[i].0.as_str(), key) == KeyOrder::Equal {
                proof { lemma_pairs_map_value(ev, i as int); }
                return Some(&self.entries[i].1);
            }
            i = i + 1;
        }
        None
    }

    /// Stores `value` under `key`, replacing any previous value.
    pub fn insert(&mut self, key: String, value: String)
        ensures
            final(self)@ == old(self)@.insert(key@, value@),
    {
        proof {
            use_type_invariant(&*self);
            lemma_sorted_unique(self.entries_view());
        }
        let ghost old_map = self@;
        let ghost s = self.entries_view();
        let mut entries: Vec<(String, String)> = Vec::new();
        std::mem::swap(&mut entries, &mut self.entries);
        assert(pairs_view(entries@) == s);
        // first position whose key is not below `key`
        let mut p: usize = 0;
        let mut o = KeyOrder::Greater;
        while p < entries.len()
            invariant_except_break
                p <= entries.len(),
                o != KeyOrder::Equal,
                pairs_view(entries@) == s,
                forall|j: int| 0 <= j < p ==> str_lt(#[trigger] s[j].0, key@),
            ensures
                p <= entries.len(),
                pairs_view(entries@) == s,
                forall|j: int| 0 <= j < p ==> str_lt(#[trigger] s[j].0, key@),
                o == KeyOrder::Equal ==> p < entries.len() && s[p as int].0 == key@,
                o != KeyOrder::Equal ==> p == entries.len() || str_lt(key@, s[p as int].0),
            decreases entries.len() - p,
        {
            o = compare_str(entries[p].0.as_str(), key.as_str());
            assert(s[p as int].0 == entries@[p as int].0@);
            if o == KeyOrder::Equal {
                break;
            } else if o == KeyOrder::Greater {
                break;
            }
            p = p + 1;
        }
        if p == entries.len() {
            o = KeyOrder::Greater;
        }
        let ghost kv = (key@, value@);
        let ghost m = old_map.insert(kv.0, kv.1);
        if o == KeyOrder::Equal {
            entries.set(p, (key, value));
            let ghost t = s.update(p as int, kv);
            assert(pairs_view(entries@) =~= t);
            assert(keys_sorted(t));
            proof {
                lemma_sorted_unique(t);
                assert forall|k: Seq<char>| #[trigger] m.contains_key(k) implies exists|i: int|
                    0 <= i < t.len() && t[i].0 == k by {
                    if k == kv.0 {
                        assert(t[p as int].0 == k);
                    } else {
                        lemma_pairs_map_dom(s, k);
                        let i = choose|i: int| 0 <= i < s.len() && s[i].0 == k;
                        assert(t[i].0 == k);
                    }
                }
                assert forall|i: int| 0 <= i < t.len() implies m.contains_key(#[trigger] t[i].0)
                    && m[t[i].0] == t[i].1 by {
                    if i != p {
                        lemma_pairs_map_value(s, i);
                    }
                }
                lemma_pairs_map_ext(t, m);
            }
        } else {
            entries.insert(p, (key, value));
            let ghost t = s.insert(p as int, kv);
            assert(pairs_view(entries@) =~= t);
            assert forall|i: int, j: int| 0 <= i < j < t.len() implies str_lt(
                #[trigger] t[i].0,
                #[trigger] t[j].0,
            ) by {
                if j > p {
                    assert(t[j] == s[j - 1]);
                    if j > p + 1 {
                        lemma_str_lt_transitive(kv.0, s[p as int].0, s[j - 1].0);
                    }
                    assert(str_lt(kv.0, t[j].0));
                    if i < p {
                        assert(t[i] == s[i]);
                        lemma_str_lt_transitive(t[i].0, kv.0, t[j].0);
                    } else if i > p {
                        assert(t[i] == s[i - 1]);
                    }
                } else if j == p {
                    assert(t[i] == s[i]);
                } else {
                    assert(t[i] == s[i]);
                    assert(t[j] == s[j]);
                }
            }
            proof {
                lemma_sorted_unique(t);
                assert forall|k: Seq<char>| #[trigger] m.contains_key(k) implies exists|i: int|
                    0 <= i < t.len() && t[i].0 == k by {
                    if k == kv.0 {
                        assert(t[p as int].0 == k);
                    } else {
                        lemma_pairs_map_dom(s, k);
                        let i = choose|i: int| 0 <= i < s.len() && s[i].0 == k;
                        if i < p {
                            assert(t[i].0 == k);
                        } else {
                            assert(t[i + 1].0 == k);
                        }
                    }
                }
                assert forall|i: int| 0 <= i < t.len() implies m.contains_key(#[trigger] t[i].0)
                    && m[t[i].0] == t[i].1 by {
                    if i != p {
                        let oi = if i < p { i } else { i - 1 };
                        assert(t[i] == s[oi]);
                        lemma_pairs_map_value(s, oi);
                        if oi < p {
                            lemma_str_lt_trichotomy(s[oi].0, kv.0);
                        } else {
                            if oi > p {
                                lemma_str_lt_transitive(kv.0, s[p as int].0, s[oi].0);
                            }
                            lemma_str_lt_trichotomy(s[oi].0, kv.0);
                        }
                    }
                }
                lemma_pairs_map_ext(t, m);
            }
        }
        self.entries = entries;
    }
}

impl Clone for ExposedHeaders {
    fn clone(&self) -> (r: Self)
        ensures
            r@ == self@,
            r.entries_view() == self.entries_view(),
    {
        proof { use_type_invariant(self); }
        let mut entries: Vec<(String, String)> = Vec::new();
        let mut i: usize = 0;
        while i < self.entries.len()
            invariant
                i <= self.entries.len(),
                pairs_view(entries@) =~= pairs_view(self.entries@).take(i as int),
            decreases self.entries.len() - i,
        {
            let k = self.entries[i].0.clone();
            let v = self.entries[i].1.clone();
            let ghost before = entries@;
            entries.push((k, v));
            assert(entries@ == before.push((k, v)));
            assert(pairs_view(self.entries@).take(i + 1) =~= pairs_view(self.entries@).take(
                i as int,
            ).push((self.entries@[i as int].0@, self.entries@[i as int].1@)));
            i = i + 1;
        }
        assert(pairs_view(self.entries@).take(self.entries.len() as int) =~= pairs_view(self.entries@));
        ExposedHeaders { entries }
    }
}

// ---------------------------------------------------------------------
// Joining header values
// ---------------------------------------------------------------------

/// `values` joined by `sep`, as `[String]::join` writes them.
pub open spec fn join(values: Seq<Seq<char>>, sep: Seq<char>) -> Seq<char>
    decreases values.len(),
{
    if values.len() == 0 {
        Seq::empty()
    } else if values.len() == 1 {
        values[0]
    } else {
        join(values.drop_last(), sep) + sep + values.last()
    }
}

/// The string views of a list of strings.
pub open spec fn strings_view(s: Seq<String>) -> Seq<Seq<char>> {
    s.map_values(|x: String| x@)
}

/// Joins `values` with `sep` between consecutive items.
pub fn join_strings(values: &Vec<String>, sep: &str) -> (r: String)
    ensures
        r@ == join(strings_view(values@), sep@),
{
    let ghost vs = strings_view(values@);
    let mut r = String::new();
    let mut i: usize = 0;
    while i < values.len()
        invariant
            i <= values.len(),
            vs == strings_view(values@),
            r@ == join(vs.take(i as int), sep@),
        decreases values.len() - i,
    {
        assert(vs.take(i + 1).drop_last() =~= vs.take(i as int));
        if i > 0 {
            r.append(sep);
        } else {
            assert(vs.take(0) =~= Seq::<Seq<char>>::empty());
        }
        r.append(values[i].as_str());
        i = i + 1;
    }
    assert(vs.take(values.len() as int) =~= vs);
    r
}

// ---------------------------------------------------------------------
// Header exposure
// ---------------------------------------------------------------------

/// The values, in order, of the upstream headers whose ASCII-lower-cased
/// name is `key`.
pub open spec fn header_values(hs: Seq<(Seq<char>, Seq<char>)>, key: Seq<char>) -> Seq<Seq<char>>
    decreases hs.len(),
{
    if hs.len() == 0 {
        Seq::empty()
    } else {
        header_values(hs.drop_last(), key) + if ascii_lower_seq(hs.last().0) == key {
            seq![hs.last().1]
        } else {
            Seq::empty()
        }
    }
}

/// Whether some allowlisted name lower-cases to `key`.
pub open spec fn allowlisted(names: Seq<Seq<char>>, key: Seq<char>) -> bool {
    exists|j: int| 0 <= j < names.len() && ascii_lower_seq(#[trigger] names[j]) == key
}

/// The exposed headers: every allowlisted name, lower-cased, that the
/// upstream sent at least once, mapped to all its values joined by `", "`.
pub open spec fn exposed_map(hs: Seq<(Seq<char>, Seq<char>)>, names: Seq<Seq<char>>) -> Map<
    Seq<char>,
    Seq<char>,
> {
    Map::new(
        |k: Seq<char>| allowlisted(names, k) && header_values(hs, k).len() > 0,
        |k: Seq<char>| join(header_values(hs, k), ", "@),
    )
}

/// The exposed headers depend on the allowlist only as a set: the order in
/// which it is walked (a hash set's, in the endpoint) cannot change them.
pub proof fn lemma_exposed_map_ignores_allowlist_order(
    hs: Seq<(Seq<char>, Seq<char>)>,
    a: Seq<Seq<char>>,
    b: Seq<Seq<char>>,
)
    requires
        a.to_set() == b.to_set(),
    ensures
        exposed_map(hs, a) == exposed_map(hs, b),
{
    assert forall|k: Seq<char>| allowlisted(a, k) <==> allowlisted(b, k) by {
        if allowlisted(a, k) {
            let j = choose|j: int| 0 <= j < a.len() && ascii_lower_seq(#[trigger] a[j]) == k;
            assert(a.to_set().contains(a[j]));
            assert(b.to_set().contains(a[j]));
            let jb = choose|jb: int| 0 <= jb < b.len() && b[jb] == a[j];
            assert(ascii_lower_seq(b[jb]) == k);
        }
        if allowlisted(b, k) {
            let j = choose|j: int| 0 <= j < b.len() && ascii_lower_seq(#[trigger] b[j]) == k;
            assert(b.to_set().contains(b[j]));
            assert(a.to_set().contains(b[j]));
            let ja = choose|ja: int| 0 <= ja < a.len() && a[ja] == b[j];
            assert(ascii_lower_seq(a[ja]) == k);
        }
    }
    assert(exposed_map(hs, a) =~= exposed_map(hs, b));
}

/// Every exposed header name is in ASCII lower case.
pub proof fn lemma_exposed_names_lowercase(
    hs: Seq<(Seq<char>, Seq<char>)>,
    names: Seq<Seq<char>>,
    k: Seq<char>,
)
    requires
        exposed_map(hs, names).contains_key(k),
    ensures
        ascii_lower_seq(k) == k,
{
    let j = choose|j: int| 0 <= j < names.len() && ascii_lower_seq(#[trigger] names[j]) == k;
    lemma_ascii_lower_idempotent(names[j]);
}

/// Collects the allowlisted upstream headers: each allowlisted name is
/// stored lower-cased, with all of the upstream's values for it joined by
/// `", "`; names the upstream did not send are left out.
pub fn extract_exposed_headers(headers: &Vec<(String, String)>, allowlist: &Vec<String>) -> (r:
    ExposedHeaders)
    ensures
        r@ == exposed_map(pairs_view(headers@), strings_view(allowlist@)),
{
    let ghost hs = pairs_view(headers@);
    let ghost names = strings_view(allowlist@);
    let mut out = ExposedHeaders::new();
    let mut i: usize = 0;
    assert(exposed_map(hs, names.take(0)) =~= Map::<Seq<char>, Seq<char>>::empty());
    while i < allowlist.len()
        invariant
            i <= allowlist.len(),
            hs == pairs_view(headers@),
            names == strings_view(allowlist@),
            out@ == exposed_map(hs, names.take(i as int)),
        decreases allowlist.len() - i,
    {
        let key = to_ascii_lowercase(allowlist[i].as_str());
        let mut values: Vec<String> = Vec::new();
        let mut h: usize = 0;
        while h < headers.len()
            invariant
                h <= headers.len(),
                hs == pairs_view(headers@),
                strings_view(values@) == header_values(hs.take(h as int), key@),
            decreases headers.len() - h,
        {
            assert(hs.take(h + 1).drop_last() =~= hs.take(h as int));
            let name = to_ascii_lowercase(headers[h].0.as_str());
            if name == key {
                values.push(headers[h].1.clone());
            }
            assert(strings_view(values@) =~= header_values(hs.take(h + 1), key@));
            h = h + 1;
        }
        assert(hs.take(headers.len() as int) =~= hs);
        let ghost k = key@;
        let ghost t = names.take(i + 1);
        assert(names.take(i as int) =~= t.take(i as int));
        assert(t[i as int] == names[i as int]);
        if values.len() > 0 {
            let joined = join_strings(&values, ", ");
            out.insert(key, joined);
            assert forall|x: Seq<char>| allowlisted(t, x) <==> allowlisted(
                names.take(i as int),
                x,
            ) || x == k by {
                if allowlisted(t, x) && x != k {
                    let j = choose|j: int| 0 <= j < t.len() && ascii_lower_seq(#[trigger] t[j]) == x;
                    assert(names.take(i as int)[j] == t[j]);
                }
                if allowlisted(names.take(i as int), x) {
                    let j = choose|j: int|
                        0 <= j < names.take(i as int).len() && ascii_lower_seq(
                            #[trigger] names.take(i as int)[j],
                        ) == x;
                    assert(t[j] == names.take(i as int)[j]);
                }
            }
            assert(out@ =~= exposed_map(hs, t));
        } else {
            assert forall|x: Seq<char>|
                allowlisted(t, x) && header_values(hs, x).len() > 0 <==> allowlisted(
                    names.take(i as int),
                    x,
                ) && header_values(hs, x).len() > 0 by {
                if allowlisted(t, x) && header_values(hs, x).len() > 0 {
                    let j = choose|j: int| 0 <= j < t.len() && ascii_lower_seq(#[trigger] t[j]) == x;
                    if j < i {
                        assert(names.take(i as int)[j] == t[j]);
                    }
                }
                if allowlisted(names.take(i as int), x) {
                    let j = choose|j: int|
                        0 <= j < names.take(i as int).len() && ascii_lower_seq(
                            #[trigger] names.take(i as int)[j],
                        ) == x;
                    assert(t[j] == names.take(i as int)[j]);
                }
            }
            assert(out@ =~= exposed_map(hs, t));
        }
        i = i + 1;
    }
    assert(names.take(allowlist.len() as int) =~= names);
    out
}

/// Whether `headers` holds a `content-type` header, compared ASCII
/// case-insensitively.
pub fn has_content_type_header(headers: &[(String, String)]) -> (r: bool)
    ensures
        r == exists|i: int|
            0 <= i < headers@.len() && eq_ignore_ascii_case_spec(
                #[trigger] headers@[i].0@,
                "content-type"@,
            ),
{
    let mut i: usize = 0;
    while i < headers.len()
        invariant
            i <= headers@.len(),
            forall|j: int|
                0 <= j < i ==> !eq_ignore_ascii_case_spec(#[trigger] headers@[j].0@, "content-type"@),
        decreases headers@.len() - i,
    {
        if eq_ignore_ascii_case(headers[i].0.as_str(), "content-type") {
            return true;
        }
        i = i + 1;
    }
    false
}

/// The value of the first pair named `name` (ASCII case-insensitively).
pub open spec fn first_value(hs: Seq<(Seq<char>, Seq<char>)>, name: Seq<char>) -> Option<
    Seq<char>,
>
    decreases hs.len(),
{
    if hs.len() == 0 {
        None
    } else if eq_ignore_ascii_case_spec(hs[0].0, name) {
        Some(hs[0].1)
    } else {
        first_value(hs.drop_first(), name)
    }
}

/// The first `retry-after` value among the upstream headers, as the HTTP
/// layer's header-map lookup returns it.
pub fn retry_after_header(headers: &Vec<(String, String)>) -> (r: Option<String>)
    ensures
        match r {
            Some(v) => first_value(pairs_view(headers@), "retry-after"@) == Some(v@),
            None => first_value(pairs_view(headers@), "retry-after"@) is None,
        },
{
    let ghost hs = pairs_view(headers@);
    let mut i: usize = 0;
    assert(hs.skip(0) =~= hs);
    while i < headers.len()
        invariant
            i <= headers.len(),
            hs == pairs_view(headers@),
            first_value(hs, "retry-after"@) == first_value(hs.skip(i as int), "retry-after"@),
        decreases headers.len() - i,
    {
        assert(hs.skip(i as int).drop_first() =~= hs.skip(i + 1));
        if eq_ignore_ascii_case(headers[i].0.as_str(), "retry-after") {
            return Some(headers[i].1.clone());
        }
        i = i + 1;
    }
    None
}

proof fn lemma_unique_len(s: Seq<(Seq<char>, Seq<char>)>)
    requires
        keys_unique(s),
    ensures
        pairs_map(s).len() == s.len(),
    decreases s.len(),
{
    if s.len() > 0 {
        let d = s.drop_last();
        assert(keys_unique(d));
        lemma_unique_len(d);
        lemma_pairs_map_dom(d, s.last().0);
        if pairs_map(d).contains_key(s.last().0) {
            let i = choose|i: int| 0 <= i < d.len() && d[i].0 == s.last().0;
            assert(s[i].0 == s[s.len() - 1].0);
        }
        lemma_pairs_map_finite(d);
    }
}

proof fn lemma_pairs_map_finite(s: Seq<(Seq<char>, Seq<char>)>)
    ensures
        pairs_map(s).dom().finite(),
    decreases s.len(),
{
    if s.len() > 0 {
        lemma_pairs_map_finite(s.drop_last());
    }
}

} // verus!
