//! Lexicographic order on names, and search in a strictly ascending list of names.

use vstd::prelude::*;

verus! {

/// Lexicographic order on character sequences, comparing from position `i` on
pub open spec fn lex_lt_from(a: Seq<char>, b: Seq<char>, i: int) -> bool
    decreases a.len() - i,
{
    if i >= a.len() {
        i < b.len()
    } else if i >= b.len() {
        false
    } else if a[i] != b[i] {
        (a[i] as u32) < (b[i] as u32)
    } else {
        lex_lt_from(a, b, i + 1)
    }
}

/// `a` comes strictly before `b` in lexicographic order
pub open spec fn name_lt(a: Seq<char>, b: Seq<char>) -> bool {
    lex_lt_from(a, b, 0)
}

/// No sequence comes strictly before itself
pub proof fn lemma_lex_irreflexive(a: Seq<char>, i: int)
    requires
        0 <= i,
    ensures
        !lex_lt_from(a, a, i),
    decreases a.len() - i,
{
    if i < a.len() {
        lemma_lex_irreflexive(a, i + 1);
    }
}

/// Lexicographic order is transitive
pub proof fn lemma_lex_transitive(a: Seq<char>, b: Seq<char>, c: Seq<char>, i: int)
    requires
        0 <= i,
        lex_lt_from(a, b, i),
        lex_lt_from(b, c, i),
    ensures
        lex_lt_from(a, c, i),
    decreases a.len() - i,
{
    if i < a.len() && i < b.len() && i < c.len() && a[i] == b[i] && b[i] == c[i] {
        lemma_lex_transitive(a, b, c, i + 1);
    }
}

/// Compares two names in lexicographic order of their characters
pub fn compare_names(a: &str, b: &str) -> (r: core::cmp::Ordering)
    ensures
        (r == core::cmp::Ordering::Less) == name_lt(a@, b@),
        (r == core::cmp::Ordering::Equal) == (a@ == b@),
        (r == core::cmp::Ordering::Greater) == name_lt(b@, a@),
{
    let la = a.unicode_len();
    let lb = b.unicode_len();
    let mut i: usize = 0;
    while i < la && i < lb
        invariant
            i <= la,
            i <= lb,
            la == a@.len(),
            lb == b@.len(),
            forall|k: int| 0 <= k < i ==> a@[k] == b@[k],
            name_lt(a@, b@) == lex_lt_from(a@, b@, i as int),
            name_lt(b@, a@) == lex_lt_from(b@, a@, i as int),
        decreases la - i,
    {
        let ca = a.get_char(i);
        let cb = b.get_char(i);
        if ca != cb {
            if (ca as u32) < (cb as u32) {
                return core::cmp::Ordering::Less;
            } else {
                return core::cmp::Ordering::Greater;
            }
        }
        i = i + 1;
    }
    if la < lb {
        core::cmp::Ordering::Less
    } else if lb < la {
        core::cmp::Ordering::Greater
    } else {
        assert(a@ =~= b@);
        proof {
            lemma_lex_irreflexive(a@, i as int);
        }
        core::cmp::Ordering::Equal
    }
}


/// Checks that two strings hold the same characters
pub fn same_text(a: &str, b: &str) -> (r: bool)
    ensures
        r == (a@ == b@),
{
    match compare_names(a, b) {
        core::cmp::Ordering::Equal => true,
        _ => false,
    }
}

/// The character sequences held by a list of strings
pub open spec fn texts(v: Seq<String>) -> Seq<Seq<char>> {
    v.map_values(|s: String| s@)
}

/// Every key comes strictly before every later key
pub open spec fn strictly_sorted(k: Seq<Seq<char>>) -> bool {
    forall|i: int, j: int| 0 <= i < j < k.len() ==> name_lt(#[trigger] k[i], #[trigger] k[j])
}

/// What a search for `key` in the strictly sorted `keys` finds: its position, or the
/// position at which it would have to be inserted
pub open spec fn search_result(keys: Seq<Seq<char>>, key: Seq<char>, r: Result<usize, usize>) -> bool {
    match r {
        Ok(i) => i < keys.len() && keys[i as int] == key,
        Err(i) => {
            &&& i <= keys.len()
            &&& forall|j: int| 0 <= j < i ==> name_lt(#[trigger] keys[j], key)
            &&& forall|j: int| i <= j < keys.len() ==> name_lt(key, #[trigger] keys[j])
        },
    }
}

/// A key that was not found is in no position of the list
pub proof fn lemma_absent(keys: Seq<Seq<char>>, key: Seq<char>, i: usize)
    requires
        search_result(keys, key, Err(i)),
    ensures
        !keys.contains(key),
{
    lemma_lex_irreflexive(key, 0);
}

/// Inserting a key at its insertion position keeps the list strictly sorted
pub proof fn lemma_insert_sorted(keys: Seq<Seq<char>>, key: Seq<char>, i: usize)
    requires
        strictly_sorted(keys),
        search_result(keys, key, Err(i)),
    ensures
        strictly_sorted(keys.insert(i as int, key)),
{
    let n = keys.insert(i as int, key);
    assert forall|a: int, b: int| 0 <= a < b < n.len() implies name_lt(#[trigger] n[a], #[trigger] n[b]) by {
        if b < i {
        } else if b == i {
        } else if a < i {
            lemma_lex_transitive(n[a], key, n[b], 0);
        } else if a == i {
        } else {
        }
    }
}

/// Binary-searches the strictly sorted `keys` for `key`
pub fn search(keys: &Vec<String>, key: &str) -> (r: Result<usize, usize>)
    requires
        strictly_sorted(texts(keys@)),
    ensures
        search_result(texts(keys@), key@, r),
{
    let ghost k = texts(keys@);
    let mut lo: usize = 0;
    let mut hi: usize = keys.len();
    while lo < hi
        invariant
            lo <= hi <= keys@.len(),
            k == texts(keys@),
            strictly_sorted(k),
            forall|j: int| 0 <= j < lo ==> name_lt(#[trigger] k[j], key@),
            forall|j: int| hi <= j < k.len() ==> name_lt(key@, #[trigger] k[j]),
        decreases hi - lo,
    {
        let mid = lo + (hi - lo) / 2;
        match compare_names(keys[mid].as_str(), key) {
            core::cmp::Ordering::Less => {
                assert forall|j: int| 0 <= j < mid + 1 implies name_lt(#[trigger] k[j], key@) by {
                    if j < mid {
                        lemma_lex_transitive(k[j], k[mid as int], key@, 0);
                    }
                }
                lo = mid + 1;
            },
            core::cmp::Ordering::Greater => {
                assert forall|j: int| mid <= j < k.len() implies name_lt(key@, #[trigger] k[j]) by {
                    if j > mid {
                        lemma_lex_transitive(key@, k[mid as int], k[j], 0);
                    }
                }
                hi = mid;
            },
            core::cmp::Ordering::Equal => {
                return Ok(mid);
            },
        }
    }
    Err(lo)
}

/// What a sequence holds after an insertion
pub proof fn lemma_insert_contains<A>(s: Seq<A>, pos: int, x: A)
    requires
        0 <= pos <= s.len(),
    ensures
        forall|y: A| #[trigger] s.insert(pos, x).contains(y) <==> (s.contains(y) || y == x),
{
    let t = s.insert(pos, x);
    assert forall|y: A| #[trigger] t.contains(y) <==> (s.contains(y) || y == x) by {
        if t.contains(y) {
            let k = choose|k: int| 0 <= k < t.len() && t[k] == y;
            if k < pos {
                assert(s[k] == y);
            } else if k > pos {
                assert(s[k - 1] == y);
            }
        }
        if s.contains(y) {
            let k = choose|k: int| 0 <= k < s.len() && s[k] == y;
            if k < pos {
                assert(t[k] == y);
            } else {
                assert(t[k + 1] == y);
            }
        }
        if y == x {
            assert(t[pos] == y);
        }
    }
}

/// What a prefix holds once it is one element longer
pub proof fn lemma_take_next_contains<A>(s: Seq<A>, i: int)
    requires
        0 <= i < s.len(),
    ensures
        forall|y: A| #[trigger] s.take(i + 1).contains(y) <==> (s.take(i).contains(y) || y == s[i]),
{
    assert(s.take(i + 1) =~= s.take(i).push(s[i]));
    lemma_insert_contains(s.take(i), i, s[i]);
    assert(s.take(i).insert(i, s[i]) =~= s.take(i).push(s[i]));
}

} // verus!
