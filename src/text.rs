use vstd::prelude::*;
use vstd::utf8::encode_utf8;

verus! {

/// The UTF-8 bytes of a name: what `str` compares and matches on.
pub open spec fn name_bytes(s: Seq<char>) -> Seq<u8> {
    encode_utf8(s)
}

/// `i` is the first index at which `a` and `b` differ, both having it.
pub open spec fn first_difference(a: Seq<u8>, b: Seq<u8>, i: int) -> bool {
    &&& 0 <= i < a.len()
    &&& i < b.len()
    &&& a[i] != b[i]
    &&& forall|j: int| 0 <= j < i ==> a[j] == b[j]
}

/// Lexicographic order on bytes, the order of `str`'s `Ord`.
pub open spec fn bytes_le(a: Seq<u8>, b: Seq<u8>) -> bool {
    ||| a.is_prefix_of(b)
    ||| exists|i: int| #[trigger] first_difference(a, b, i) && a[i] < b[i]
}

/// Name `a` sorts no later than name `b`.
pub open spec fn name_le(a: Seq<char>, b: Seq<char>) -> bool {
    bytes_le(name_bytes(a), name_bytes(b))
}

/// Name `s` starts with `p`.
pub open spec fn name_has_prefix(s: Seq<char>, p: Seq<char>) -> bool {
    name_bytes(p).is_prefix_of(name_bytes(s))
}

proof fn lemma_first_difference_unique(a: Seq<u8>, b: Seq<u8>, i: int, k: int)
    requires
        first_difference(a, b, i),
        first_difference(a, b, k),
    ensures
        i == k,
{
}

/// The byte order is transitive.
pub proof fn lemma_bytes_le_transitive(a: Seq<u8>, b: Seq<u8>, c: Seq<u8>)
    requires
        bytes_le(a, b),
        bytes_le(b, c),
    ensures
        bytes_le(a, c),
{
    if a.is_prefix_of(b) {
        if b.is_prefix_of(c) {
            assert(a.is_prefix_of(c));
        } else {
            let k = choose|k: int| #[trigger] first_difference(b, c, k) && b[k] < c[k];
            if k >= a.len() {
                assert(a.is_prefix_of(c));
            } else {
                assert(first_difference(a, c, k));
            }
        }
    } else {
        let i = choose|i: int| #[trigger] first_difference(a, b, i) && a[i] < b[i];
        if b.is_prefix_of(c) {
            assert(first_difference(a, c, i));
        } else {
            let k = choose|k: int| #[trigger] first_difference(b, c, k) && b[k] < c[k];
            if i <= k {
                assert(first_difference(a, c, i));
            } else {
                assert(first_difference(a, c, k));
            }
        }
    }
}

/// Compares two strings by their bytes; when the first does not sort no
/// later than the second, the second sorts strictly before the first.
pub fn names_in_order(a: &str, b: &str) -> (r: bool)
    ensures
        r == name_le(a@, b@),
        !r ==> name_le(b@, a@),
{
    let x = a.as_bytes();
    let y = b.as_bytes();
    let n: usize = if x.len() < y.len() { x.len() } else { y.len() };
    let mut i: usize = 0;
    while i < n && x[i] == y[i]
        invariant
            x@ == name_bytes(a@),
            y@ == name_bytes(b@),
            n <= x@.len(),
            n <= y@.len(),
            n == x@.len() || n == y@.len(),
            i <= n,
            forall|j: int| 0 <= j < i ==> x@[j] == y@[j],
        decreases n - i,
    {
        i = i + 1;
    }
    if i == x.len() {
        assert(x@.is_prefix_of(y@));
        true
    } else if i == y.len() {
        assert(y@.is_prefix_of(x@));
        assert(!x@.is_prefix_of(y@));
        assert forall|k: int| first_difference(x@, y@, k) implies !(x@[k] < y@[k]) by {
            assert(k >= i || x@[k] == y@[k]);
        }
        false
    } else {
        assert(first_difference(x@, y@, i as int));
        assert(first_difference(y@, x@, i as int));
        assert(!x@.is_prefix_of(y@));
        assert(!y@.is_prefix_of(x@));
        assert forall|k: int| first_difference(x@, y@, k) implies k == i by {
            lemma_first_difference_unique(x@, y@, k, i as int);
        }
        x[i] < y[i]
    }
}

/// Whether `s` starts with `p`, byte for byte.
pub fn has_prefix(s: &str, p: &str) -> (r: bool)
    ensures
        r == name_has_prefix(s@, p@),
{
    let x = s.as_bytes();
    let y = p.as_bytes();
    if y.len() > x.len() {
        return false;
    }
    let mut i: usize = 0;
    while i < y.len()
        invariant
            x@ == name_bytes(s@),
            y@ == name_bytes(p@),
            y@.len() <= x@.len(),
            i <= y@.len(),
            forall|j: int| 0 <= j < i ==> x@[j] == y@[j],
        decreases y@.len() - i,
    {
        if x[i] != y[i] {
            return false;
        }
        i = i + 1;
    }
    true
}

} // verus!
