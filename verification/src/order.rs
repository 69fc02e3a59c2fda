//! The order in which the entries of a directory are tried: by the bytes of
//! their paths, as text is ordered everywhere else in the language.

use vstd::prelude::*;
use vstd::string::*;
use vstd::utf8::encode_utf8;

verus! {

/// `a` comes no later than `b` when both are read byte by byte: the first
/// byte that differs decides, and a proper prefix comes first.
pub open spec fn bytes_le(a: Seq<u8>, b: Seq<u8>) -> bool
    decreases a.len(),
{
    if a.len() == 0 {
        true
    } else if b.len() == 0 {
        false
    } else if a[0] != b[0] {
        a[0] < b[0]
    } else {
        bytes_le(a.drop_first(), b.drop_first())
    }
}

/// The order of two paths is that of their UTF-8 encodings.
pub open spec fn path_le(a: Seq<char>, b: Seq<char>) -> bool {
    bytes_le(encode_utf8(a), encode_utf8(b))
}

/// Every pair of neighbours, and so every pair, is in order.
pub open spec fn ordered(paths: Seq<Seq<char>>) -> bool {
    forall|i: int, j: int| 0 <= i <= j < paths.len() ==> path_le(paths[i], paths[j])
}

/// `sorted` with `path` put behind the last entry that is not after it.
pub open spec fn insert_path(sorted: Seq<Seq<char>>, path: Seq<char>) -> Seq<Seq<char>>
    decreases sorted.len(),
{
    if sorted.len() == 0 {
        seq![path]
    } else if path_le(sorted.last(), path) {
        sorted.push(path)
    } else {
        insert_path(sorted.drop_last(), path).push(sorted.last())
    }
}

/// The entries of a directory in the order in which they are tried.
pub open spec fn sorted_paths(entries: Seq<Seq<char>>) -> Seq<Seq<char>>
    decreases entries.len(),
{
    if entries.len() == 0 {
        entries
    } else {
        insert_path(sorted_paths(entries.drop_last()), entries.last())
    }
}

/// The text of each string of a list.
pub open spec fn texts(v: Seq<String>) -> Seq<Seq<char>> {
    v.map_values(|s: String| s@)
}

pub proof fn lemma_bytes_le_reflexive(a: Seq<u8>)
    ensures
        bytes_le(a, a),
    decreases a.len(),
{
    if a.len() > 0 {
        lemma_bytes_le_reflexive(a.drop_first());
    }
}

pub proof fn lemma_bytes_le_total(a: Seq<u8>, b: Seq<u8>)
    ensures
        bytes_le(a, b) || bytes_le(b, a),
    decreases a.len(),
{
    if a.len() > 0 && b.len() > 0 && a[0] == b[0] {
        lemma_bytes_le_total(a.drop_first(), b.drop_first());
    }
}

pub proof fn lemma_bytes_le_transitive(a: Seq<u8>, b: Seq<u8>, c: Seq<u8>)
    requires
        bytes_le(a, b),
        bytes_le(b, c),
    ensures
        bytes_le(a, c),
    decreases a.len(),
{
    if a.len() > 0 && b.len() > 0 && c.len() > 0 && a[0] == b[0] && b[0] == c[0] {
        lemma_bytes_le_transitive(a.drop_first(), b.drop_first(), c.drop_first());
    }
}

pub proof fn lemma_bytes_le_antisymmetric(a: Seq<u8>, b: Seq<u8>)
    requires
        bytes_le(a, b),
        bytes_le(b, a),
    ensures
        a == b,
    decreases a.len(),
{
    if a.len() > 0 && b.len() > 0 {
        lemma_bytes_le_antisymmetric(a.drop_first(), b.drop_first());
        assert(a =~= seq![a[0]] + a.drop_first());
        assert(b =~= seq![b[0]] + b.drop_first());
    }
}

/// Whether `a` comes no later than `b`, byte by byte.
pub fn le_bytes(a: &[u8], b: &[u8]) -> (r: bool)
    ensures
        r == bytes_le(a@, b@),
{
    let mut i: usize = 0;
    proof {
        assert(a@.skip(0) =~= a@);
        assert(b@.skip(0) =~= b@);
    }
    while i < a.len() && i < b.len() && a[i] == b[i]
        invariant
            i <= a.len(),
            i <= b.len(),
            bytes_le(a@, b@) == bytes_le(a@.skip(i as int), b@.skip(i as int)),
        decreases a.len() - i,
    {
        proof {
            let x = a@.skip(i as int);
            let y = b@.skip(i as int);
            assert(x.drop_first() =~= a@.skip(i + 1));
            assert(y.drop_first() =~= b@.skip(i + 1));
        }
        i = i + 1;
    }
    if i >= a.len() {
        true
    } else if i >= b.len() {
        false
    } else {
        a[i] < b[i]
    }
}

/// Whether path `a` is tried no later than path `b`.
pub fn le_paths(a: &String, b: &String) -> (r: bool)
    ensures
        r == path_le(a@, b@),
{
    le_bytes(a.as_str().as_bytes(), b.as_str().as_bytes())
}

/// Where the scan for a place stops is where `insert_path` puts the path.
proof fn lemma_insert_at(sorted: Seq<Seq<char>>, path: Seq<char>, k: int)
    requires
        0 <= k <= sorted.len(),
        forall|j: int| k <= j < sorted.len() ==> !path_le(#[trigger] sorted[j], path),
        k > 0 ==> path_le(sorted[k - 1], path),
    ensures
        insert_path(sorted, path) == sorted.insert(k, path),
    decreases sorted.len(),
{
    if sorted.len() > 0 && !path_le(sorted.last(), path) {
        let front = sorted.drop_last();
        assert forall|j: int| k <= j < front.len() implies !path_le(#[trigger] front[j], path) by {
            assert(front[j] == sorted[j]);
        }
        lemma_insert_at(front, path, k);
    }
}

/// An ordered list without its last entry is ordered.
proof fn lemma_ordered_front(paths: Seq<Seq<char>>)
    requires
        ordered(paths),
        paths.len() > 0,
    ensures
        ordered(paths.drop_last()),
{
    let front = paths.drop_last();
    assert forall|i: int, j: int| 0 <= i <= j < front.len() implies path_le(front[i], front[j]) by {
        assert(front[i] == paths[i] && front[j] == paths[j]);
    }
}

/// Putting one path into an ordered list keeps it ordered and adds nothing
/// but that path.
pub proof fn lemma_insert_path(sorted: Seq<Seq<char>>, path: Seq<char>)
    requires
        ordered(sorted),
    ensures
        ordered(insert_path(sorted, path)),
        insert_path(sorted, path).len() == sorted.len() + 1,
        insert_path(sorted, path).to_multiset() == sorted.to_multiset().insert(path),
    decreases sorted.len(),
{
    broadcast use vstd::seq_lib::group_to_multiset_ensures;

    let out = insert_path(sorted, path);
    if sorted.len() == 0 {
        lemma_bytes_le_reflexive(encode_utf8(path));
    } else if path_le(sorted.last(), path) {
        assert forall|i: int, j: int| 0 <= i <= j < out.len() implies path_le(out[i], out[j]) by {
            if j == sorted.len() {
                if i < j {
                    assert(path_le(sorted[i], sorted[sorted.len() - 1]));
                    lemma_bytes_le_transitive(
                        encode_utf8(sorted[i]),
                        encode_utf8(sorted.last()),
                        encode_utf8(path),
                    );
                } else {
                    lemma_bytes_le_reflexive(encode_utf8(path));
                }
            }
        }
    } else {
        let front = sorted.drop_last();
        let last = sorted.last();
        lemma_ordered_front(sorted);
        lemma_insert_path(front, path);
        let mid = insert_path(front, path);
        assert(sorted =~= front.push(last));
        lemma_bytes_le_total(encode_utf8(last), encode_utf8(path));
        assert forall|i: int| 0 <= i < mid.len() implies path_le(#[trigger] mid[i], last) by {
            assert(mid.to_multiset().count(mid[i]) > 0);
            if mid[i] != path {
                let w = choose|w: int| 0 <= w < front.len() && front[w] == mid[i];
                assert(path_le(sorted[w], sorted[sorted.len() - 1]));
            }
        }
        assert forall|i: int, j: int| 0 <= i <= j < out.len() implies path_le(out[i], out[j]) by {
            if i == mid.len() {
                lemma_bytes_le_reflexive(encode_utf8(last));
            }
        }
    }
}

/// The order of trial is an order, and it tries what the directory holds:
/// nothing is lost, added or tried twice.
pub proof fn law_entries_are_tried_in_order(entries: Seq<Seq<char>>)
    ensures
        ordered(sorted_paths(entries)),
        sorted_paths(entries).len() == entries.len(),
        sorted_paths(entries).to_multiset() == entries.to_multiset(),
    decreases entries.len(),
{
    broadcast use vstd::seq_lib::group_to_multiset_ensures;

    if entries.len() > 0 {
        law_entries_are_tried_in_order(entries.drop_last());
        lemma_insert_path(sorted_paths(entries.drop_last()), entries.last());
        assert(entries =~= entries.drop_last().push(entries.last()));
    }
}

/// Two paths that are each no later than the other are one path.
pub proof fn lemma_path_le_antisymmetric(a: Seq<char>, b: Seq<char>)
    requires
        path_le(a, b),
        path_le(b, a),
    ensures
        a == b,
{
    lemma_bytes_le_antisymmetric(encode_utf8(a), encode_utf8(b));
    vstd::utf8::encode_utf8_decode_utf8(a);
    vstd::utf8::encode_utf8_decode_utf8(b);
}

/// There is one way only to put given paths in order.
pub proof fn lemma_ordered_unique(a: Seq<Seq<char>>, b: Seq<Seq<char>>)
    requires
        ordered(a),
        ordered(b),
        a.to_multiset() == b.to_multiset(),
    ensures
        a == b,
    decreases a.len(),
{
    broadcast use vstd::seq_lib::group_to_multiset_ensures;

    assert(a.len() == b.len()) by {
        vstd::seq_lib::to_multiset_len(a);
        vstd::seq_lib::to_multiset_len(b);
    }
    if a.len() > 0 {
        let x = a.last();
        let y = b.last();
        assert(b.to_multiset().count(x) > 0);
        assert(a.to_multiset().count(y) > 0);
        let i = choose|i: int| 0 <= i < b.len() && b[i] == x;
        let j = choose|j: int| 0 <= j < a.len() && a[j] == y;
        assert(path_le(b[i], b[b.len() - 1]));
        assert(path_le(a[j], a[a.len() - 1]));
        lemma_path_le_antisymmetric(x, y);
        let front_a = a.drop_last();
        let front_b = b.drop_last();
        assert(a =~= front_a.push(x));
        assert(b =~= front_b.push(y));
        assert(front_a.to_multiset() =~= front_b.to_multiset()) by {
            assert forall|p: Seq<char>|
                front_a.to_multiset().count(p) == front_b.to_multiset().count(p) by {
                assert(a.to_multiset().count(p) == front_a.to_multiset().insert(x).count(p));
                assert(b.to_multiset().count(p) == front_b.to_multiset().insert(y).count(p));
            }
        }
        lemma_ordered_front(a);
        lemma_ordered_front(b);
        lemma_ordered_unique(front_a, front_b);
    }
}

/// The order of trial does not depend on the order in which a directory
/// hands out its entries: two listings of the same entries are tried alike.
pub proof fn law_trial_order_ignores_listing_order(first: Seq<Seq<char>>, second: Seq<Seq<char>>)
    requires
        first.to_multiset() == second.to_multiset(),
    ensures
        sorted_paths(first) == sorted_paths(second),
{
    law_entries_are_tried_in_order(first);
    law_entries_are_tried_in_order(second);
    lemma_ordered_unique(sorted_paths(first), sorted_paths(second));
}

/// Puts `path` into `v` behind the last entry that is not after it.
fn insert_sorted(v: &mut Vec<String>, path: String)
    ensures
        texts(final(v)@) == insert_path(texts(old(v)@), path@),
{
    let mut k: usize = v.len();
    while k > 0 && !le_paths(&v[k - 1], &path)
        invariant
            k <= v.len(),
            *v == *old(v),
            forall|j: int| k <= j < v.len() ==> !path_le(#[trigger] texts(v@)[j], path@),
        decreases k,
    {
        k = k - 1;
    }
    proof {
        lemma_insert_at(texts(v@), path@, k as int);
    }
    v.insert(k, path);
}

/// The entries of a directory, as they were read, in the order of trial.
pub fn sort_paths(entries: &Vec<String>) -> (v: Vec<String>)
    ensures
        texts(v@) == sorted_paths(texts(entries@)),
{
    let mut v: Vec<String> = Vec::new();
    let mut i: usize = 0;
    while i < entries.len()
        invariant
            i <= entries.len(),
            texts(v@) == sorted_paths(texts(entries@).take(i as int)),
        decreases entries.len() - i,
    {
        let path = entries[i].clone();
        proof {
            let all = texts(entries@);
            assert(all.take(i + 1).drop_last() =~= all.take(i as int));
        }
        insert_sorted(&mut v, path);
        i = i + 1;
    }
    assert(texts(entries@).take(i as int) =~= texts(entries@));
    v
}

} // verus!
